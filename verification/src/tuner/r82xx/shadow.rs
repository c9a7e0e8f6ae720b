//! The shadow of the registers and the registers themselves.
//!
//! The registers are not read back: what they hold is what the messages sent to
//! the tuner have written. These proofs compare that with the shadow.

use vstd::prelude::*;

use crate::exchange::{goes_on, Flow, Port, Run, Transfer};
use crate::reg::{Block, GPD, GPO, GPOE};
use crate::tuner::r82xx::bandwidth::{band_plan, band_steps, r82xx_set_bw_run};
use crate::tuner::r82xx::constants::{
    freq_range_at, XtalCapValue, HF, NUM_INIT_REGS, NUM_REGS, R82XX_INIT_ARRAY, REG_SHADOW_START,
};
use crate::tuner::r82xx::gain::{
    auto_off_steps, gain_mode_steps, gain_rung, gain_steps, r82xx_set_gain_mode_run,
    r82xx_set_gain_run,
};
use crate::tuner::r82xx::i2c::{
    cached, chip_steps_run, chunk_size, holds, masked, messages_run, read_run, stored,
    write_reg_mask_run, write_run, ChipStep,
};
use crate::tuner::r82xx::pll::{
    divided_run, divider, divider_number, in_khz, lock_run, nint_fault, pll_nint, pll_regs,
    pll_shadow, pll_word, program_run, reports_lock, second_look_run, set_pll_run, tuned_number,
};
use crate::tuner::r82xx::{
    band_inputs, blog_v4_band, blog_v4_notch_off, calibrate_run, calibration_opening,
    calibration_pll_run, calibration_result_run, calibration_trigger, calibrations_run,
    choose_input_run, freq_range_idx, lo_freq, mux_steps, r828d_input, r82xx_init_run,
    r82xx_set_freq_run, set_mux_run, set_tv_standard_run, standby_run, standby_steps,
    switch_band_run, sysfreq_closing, sysfreq_opening, sysfreq_sel_run, tv_closing, tv_closing_run,
    tv_opening, upconverter_run, with_init_values, Chip, FILT_CAL_LO,
};
use crate::usb::{i2c_write_run, pin_run, read_reg_run, set_gpio_output_run, write_index};

verus! {

/// The registers after the transfer `t`. A write to the tuner's I2C address starts
/// at the register that its first byte names.
pub open spec fn after(hw: Seq<u8>, i2c_addr: u8, t: Transfer) -> Seq<u8> {
    match t {
        Transfer::Out { value, index, data } => {
            if value == i2c_addr && index == write_index(Block::Iic) && data.len() > 0 {
                stored(hw, data[0] as int, data.skip(1))
            } else {
                hw
            }
        },
        Transfer::In { .. } => hw,
    }
}

/// The registers after the transfers in `sent` from the position `from` on.
pub open spec fn written(hw: Seq<u8>, i2c_addr: u8, sent: Seq<Transfer>, from: int) -> Seq<u8>
    decreases sent.len(),
{
    if sent.len() == 0 || sent.len() <= from {
        hw
    } else {
        after(written(hw, i2c_addr, sent.drop_last(), from), i2c_addr, sent.last())
    }
}

/// Whether the registers hold `regs` after the transfers in `sent` from the position
/// `from` up to, but not including, the position `upto`.
pub open spec fn written_upto(
    hw: Seq<u8>,
    i2c_addr: u8,
    sent: Seq<Transfer>,
    from: nat,
    upto: int,
    regs: Seq<u8>,
) -> bool {
    &&& from <= upto <= sent.len()
    &&& regs == written(hw, i2c_addr, sent.take(upto), from as int)
}

/// Whether the shadow that a run left is what its transfers before the position
/// `upto` have written.
#[verifier::inline]
pub open spec fn shadow_upto<A>(c: Chip, p: Port, r: Run<Chip, A>, upto: int) -> bool {
    written_upto(c.regs, c.i2c_addr, r.port.sent, p.sent.len(), upto, r.state.regs)
}

/// Whether a run left in the shadow what its transfers have written into the
/// registers: all of them where it finished, else those up to some transfer. So the
/// shadow never holds what was not sent.
pub open spec fn tracks<A>(c: Chip, p: Port, r: Run<Chip, A>) -> bool {
    &&& goes_on(p.sent, r.port.sent)
    &&& r.state.i2c_addr == c.i2c_addr
    &&& r.state.regs.len() == c.regs.len()
    &&& exists|upto: int| #[trigger] shadow_upto(c, p, r, upto)
    &&& r.flow is Done ==> shadow_upto(c, p, r, r.port.sent.len() as int)
}

/// A run that finished left the shadow as its transfers left the registers.
pub proof fn finished_run_tracks_all<A>(c: Chip, p: Port, r: Run<Chip, A>)
    requires
        tracks(c, p, r),
        r.flow is Done,
    ensures
        r.state.regs == written(c.regs, c.i2c_addr, r.port.sent, p.sent.len() as int),
{
    assert(r.port.sent.take(r.port.sent.len() as int) =~= r.port.sent);
}

proof fn unchanged_tracks<A>(c: Chip, p: Port, r: Run<Chip, A>)
    requires
        goes_on(p.sent, r.port.sent),
        r.state.i2c_addr == c.i2c_addr,
        r.state.regs == c.regs,
        r.flow is Done ==> r.port.sent.len() == p.sent.len(),
    ensures
        tracks(c, p, r),
{
    let n = p.sent.len() as int;
    assert(r.port.sent.take(n) =~= p.sent);
    assert(shadow_upto(c, p, r, n));
}

/// Whether the transfers of a run leave the registers alone.
pub open spec fn leaves_alone<A>(i2c_addr: u8, p: Port, r: Run<(), A>) -> bool {
    &&& goes_on(p.sent, r.port.sent)
    &&& forall|hw: Seq<u8>|
        #[trigger] written(hw, i2c_addr, r.port.sent, p.sent.len() as int) == hw
}

/// Transfers in two parts write what the second part writes after the first.
pub proof fn written_in_parts(
    hw: Seq<u8>,
    i2c_addr: u8,
    part: Seq<Transfer>,
    all: Seq<Transfer>,
    from: int,
)
    requires
        goes_on(part, all),
        0 <= from <= part.len(),
    ensures
        written(hw, i2c_addr, all, from) == written(
            written(hw, i2c_addr, part, from),
            i2c_addr,
            all,
            part.len() as int,
        ),
    decreases all.len(),
{
    if all.len() == part.len() {
        assert(all =~= part);
    } else {
        written_in_parts(hw, i2c_addr, part, all.drop_last(), from);
    }
}

/// A register holds the same after the same transfers, whatever the others held.
pub proof fn written_one_by_one(
    one: Seq<u8>,
    other: Seq<u8>,
    i2c_addr: u8,
    sent: Seq<Transfer>,
    from: int,
    k: int,
)
    requires
        one.len() == other.len(),
        0 <= k < one.len(),
        one[k] == other[k],
    ensures
        written(one, i2c_addr, sent, from).len() == one.len(),
        written(other, i2c_addr, sent, from).len() == one.len(),
        written(one, i2c_addr, sent, from)[k] == written(other, i2c_addr, sent, from)[k],
    decreases sent.len(),
{
    if sent.len() > 0 && sent.len() > from {
        written_one_by_one(one, other, i2c_addr, sent.drop_last(), from, k);
    }
}

/// One run after another that finished, each tracking, track as a whole.
pub proof fn tracks_in_turn<A, B>(c: Chip, p: Port, a: Run<Chip, A>, b: Run<Chip, B>)
    requires
        tracks(c, p, a),
        a.flow is Done,
        tracks(a.state, a.port, b),
    ensures
        tracks(c, p, b),
{
    finished_run_tracks_all(c, p, a);
    assert forall|upto: int| #[trigger] shadow_upto(a.state, a.port, b, upto) implies shadow_upto(
        c, p, b, upto,
    ) by {
        written_in_parts(
            c.regs,
            c.i2c_addr,
            a.port.sent,
            b.port.sent.take(upto),
            p.sent.len() as int,
        );
    }
    let upto = choose|upto: int| #[trigger] shadow_upto(a.state, a.port, b, upto);
    assert(shadow_upto(c, p, b, upto));
}

/// A run that leaves the registers alone, then one that tracks, track as a whole.
pub proof fn tracks_after_none<A, B>(c: Chip, p: Port, a: Run<(), A>, b: Run<Chip, B>)
    requires
        leaves_alone(c.i2c_addr, p, a),
        tracks(c, a.port, b),
    ensures
        tracks(c, p, b),
{
    assert(written(c.regs, c.i2c_addr, a.port.sent, p.sent.len() as int) == c.regs);
    assert forall|upto: int| #[trigger] shadow_upto(c, a.port, b, upto) implies shadow_upto(
        c, p, b, upto,
    ) by {
        written_in_parts(
            c.regs,
            c.i2c_addr,
            a.port.sent,
            b.port.sent.take(upto),
            p.sent.len() as int,
        );
    }
    let upto = choose|upto: int| #[trigger] shadow_upto(c, a.port, b, upto);
    assert(shadow_upto(c, p, b, upto));
}

/// A run that tracks, then a part that ends the operation without touching the
/// shadow, track as a whole.
pub proof fn tracks_when_stopped<A, B>(c: Chip, p: Port, a: Run<Chip, A>, r: Run<Chip, B>)
    requires
        tracks(c, p, a),
        a.flow is Done,
        goes_on(a.port.sent, r.port.sent),
        r.state.regs == a.state.regs,
        r.state.i2c_addr == a.state.i2c_addr,
        !(r.flow is Done),
    ensures
        tracks(c, p, r),
{
    unchanged_tracks(a.state, a.port, r);
    tracks_in_turn(c, p, a, r);
}

/// The messages write the values into the registers from `reg` on, in that order
/// and without a gap.
pub proof fn messages_write_the_values(
    hw: Seq<u8>,
    p: Port,
    i2c_addr: u8,
    max_msg_len: nat,
    reg: int,
    val: Seq<u8>,
)
    requires
        0 <= reg,
        reg + val.len() <= u8::MAX,
    ensures
        ({
            let r = messages_run(p, i2c_addr, max_msg_len, reg, val);
            &&& goes_on(p.sent, r.port.sent)
            &&& r.flow is Done ==> written(hw, i2c_addr, r.port.sent, p.sent.len() as int)
                == stored(hw, reg, val)
        }),
    decreases val.len(),
{
    let r = messages_run(p, i2c_addr, max_msg_len, reg, val);
    if val.len() == 0 {
        assert(stored(hw, reg, val) =~= hw);
    } else {
        let size = chunk_size(val.len(), max_msg_len, (NUM_REGS + 1) as nat);
        let data = seq![reg as u8] + val.take(size as int);
        let w = i2c_write_run(p, i2c_addr, data);
        assert(w.port.sent.drop_last() =~= p.sent);
        assert(data.skip(1) =~= val.take(size as int));
        let hw1 = stored(hw, reg, val.take(size as int));
        assert(written(hw, i2c_addr, p.sent, p.sent.len() as int) == hw);
        assert(written(hw, i2c_addr, w.port.sent, p.sent.len() as int) == hw1);
        messages_write_the_values(
            hw1,
            w.port,
            i2c_addr,
            max_msg_len,
            reg + size,
            val.skip(size as int),
        );
        if r.flow is Done {
            written_in_parts(hw, i2c_addr, w.port.sent, r.port.sent, p.sent.len() as int);
            assert(stored(hw1, reg + size, val.skip(size as int)) =~= stored(hw, reg, val));
        }
    }
}

/// A write of registers keeps the shadow true.
pub proof fn write_tracks(c: Chip, p: Port, reg: u8, val: Seq<u8>)
    requires
        reg + val.len() <= u8::MAX,
    ensures
        tracks(c, p, write_run(c, p, reg, val)),
{
    messages_write_the_values(c.regs, p, c.i2c_addr, c.max_i2c_msg_len, reg as int, val);
    let r = write_run(c, p, reg, val);
    if r.flow is Done && !holds(c.regs, reg as int, val) {
        let n = r.port.sent.len() as int;
        assert(r.port.sent.take(n) =~= r.port.sent);
        assert(shadow_upto(c, p, r, n));
    } else {
        unchanged_tracks(c, p, r);
    }
}

/// A write of registers that does not finish leaves the driver's state as it was.
pub proof fn unfinished_write_changes_nothing(c: Chip, p: Port, reg: u8, val: Seq<u8>)
    requires
        !(write_run(c, p, reg, val).flow is Done),
    ensures
        write_run(c, p, reg, val).state == c,
{
}

/// Writing what the shadow holds sends nothing and succeeds; and after a write
/// that finished the shadow holds what was written.
pub proof fn repeated_write_sends_nothing(c: Chip, p: Port, q: Port, reg: u8, val: Seq<u8>)
    requires
        c.regs.len() == NUM_REGS,
        REG_SHADOW_START <= reg,
        reg - REG_SHADOW_START + val.len() <= NUM_REGS,
        write_run(c, p, reg, val).flow is Done,
    ensures
        ({
            let w = write_run(c, p, reg, val);
            &&& holds(w.state.regs, reg as int, val)
            &&& write_run(w.state, q, reg, val) == (Run {
                state: w.state,
                port: q,
                flow: Flow::Done(()),
            })
        }),
{
    let w = write_run(c, p, reg, val);
    let at = reg - REG_SHADOW_START;
    assert(w.state.regs.subrange(at, at + val.len()) =~= val);
}

/// A write under a mask keeps the shadow true.
pub proof fn write_reg_mask_tracks(c: Chip, p: Port, reg: u8, val: u8, mask: u8)
    ensures
        tracks(c, p, write_reg_mask_run(c, p, reg, val, mask)),
{
    if let Some(old) = cached(c.regs, reg) {
        write_tracks(c, p, reg, seq![masked(old, val, mask)]);
    } else {
        unchanged_tracks(c, p, write_reg_mask_run(c, p, reg, val, mask));
    }
}

/// A sequence of register writes keeps the shadow true.
pub proof fn chip_steps_track(c: Chip, p: Port, steps: Seq<ChipStep>)
    requires
        forall|i: int| 0 <= i < steps.len() ==> (#[trigger] steps[i]).fits(),
    ensures
        tracks(c, p, chip_steps_run(c, p, steps)),
    decreases steps.len(),
{
    if steps.len() > 0 {
        assert(steps[0].fits());
        match steps[0] {
            ChipStep::Mask { reg, val, mask } => {
                write_reg_mask_tracks(c, p, reg, val, mask);
            },
            ChipStep::Put { reg, val } => {
                write_tracks(c, p, reg, seq![val]);
            },
        }
        let s = steps[0].run(c, p);
        if s.flow is Done {
            assert forall|i: int| 0 <= i < steps.drop_first().len() implies (
            #[trigger] steps.drop_first()[i]).fits() by {
                assert(steps[i + 1].fits());
            }
            chip_steps_track(s.state, s.port, steps.drop_first());
            tracks_in_turn(c, p, s, chip_steps_run(s.state, s.port, steps.drop_first()));
        }
    }
}

/// Reading registers leaves them alone.
pub proof fn read_leaves_alone(c: Chip, p: Port, reg: u8, len: nat)
    ensures
        leaves_alone(c.i2c_addr, p, read_run(c, p, reg, len)),
{
    let r = read_run(c, p, reg, len);
    let w = i2c_write_run(p, c.i2c_addr, seq![reg]);
    assert forall|hw: Seq<u8>|
        #[trigger] written(hw, c.i2c_addr, r.port.sent, p.sent.len() as int) == hw by {
        assert(w.port.sent.drop_last() =~= p.sent);
        assert(stored(hw, reg as int, seq![reg].skip(1)) =~= hw);
        assert(written(hw, c.i2c_addr, p.sent, p.sent.len() as int) == hw);
        assert(written(hw, c.i2c_addr, w.port.sent, p.sent.len() as int) == hw);
        if r.port.sent.len() > w.port.sent.len() {
            assert(r.port.sent.drop_last() =~= w.port.sent);
        } else {
            assert(r.port.sent =~= w.port.sent);
        }
    }
}

/// Setting the PLL keeps the shadow true.
pub proof fn set_pll_tracks(c: Chip, p: Port, freq: u32)
    ensures
        tracks(c, p, set_pll_run(c, p, freq)),
{
    let r = set_pll_run(c, p, freq);
    let a = write_reg_mask_run(c, p, 0x1a, 0x00, 0x0c);
    if c.xtal == 0 {
        unchanged_tracks(c, p, r);
    } else {
        write_reg_mask_tracks(c, p, 0x1a, 0x00, 0x0c);
        if a.flow is Done {
            match divider_number(in_khz(freq)) {
                Some(n) => {
                    divided_tracks(a.state, a.port, freq, n);
                    tracks_in_turn(c, p, a, r);
                },
                None => {
                    tracks_when_stopped(c, p, a, r);
                },
            }
        }
    }
}

proof fn divided_tracks(c: Chip, p: Port, freq: u32, n: int)
    ensures
        tracks(c, p, divided_run(c, p, freq, n)),
{
    let r = divided_run(c, p, freq, n);
    read_leaves_alone(c, p, 0x00, 5);
    let f = read_run(c, p, 0x00, 5);
    match f.flow {
        Flow::Done(data) => {
            program_tracks(c, f.port, freq, n, data[4]);
            tracks_after_none(c, p, f, r);
        },
        _ => {
            unchanged_tracks(c, p, r);
        },
    }
}

proof fn program_tracks(c: Chip, p: Port, freq: u32, n: int, status: u8)
    ensures
        tracks(c, p, program_run(c, p, freq, n, status)),
{
    let r = program_run(c, p, freq, n, status);
    let word = pll_word(c.xtal, freq, divider(n));
    let regs = pll_regs(pll_shadow(c), tuned_number(c.rafael_chip, n, status), word);
    write_tracks(c, p, 0x10, regs);
    let w = write_run(c, p, 0x10, regs);
    if nint_fault(c.rafael_chip, freq, pll_nint(word)) is Some {
        unchanged_tracks(c, p, r);
    } else if w.flow is Done {
        lock_tracks(w.state, w.port, freq);
        tracks_in_turn(c, p, w, r);
    }
}

proof fn lock_tracks(c: Chip, p: Port, freq: u32)
    ensures
        tracks(c, p, lock_run(c, p, freq)),
{
    let r = lock_run(c, p, freq);
    read_leaves_alone(c, p, 0x00, 3);
    let f = read_run(c, p, 0x00, 3);
    match f.flow {
        Flow::Done(data) => {
            if reports_lock(data) {
                write_reg_mask_tracks(c, f.port, 0x1a, 0x08, 0x08);
                tracks_after_none(c, p, f, r);
            } else {
                write_reg_mask_tracks(c, f.port, 0x12, 0x60, 0xe0);
                let w = write_reg_mask_run(c, f.port, 0x12, 0x60, 0xe0);
                tracks_after_none(c, p, f, w);
                if w.flow is Done {
                    second_look_tracks(w.state, w.port, freq);
                    tracks_in_turn(c, p, w, r);
                }
            }
        },
        _ => {
            unchanged_tracks(c, p, r);
        },
    }
}

proof fn second_look_tracks(c: Chip, p: Port, freq: u32)
    ensures
        tracks(c, p, second_look_run(c, p, freq)),
{
    let r = second_look_run(c, p, freq);
    read_leaves_alone(c, p, 0x00, 3);
    let f = read_run(c, p, 0x00, 3);
    match f.flow {
        Flow::Done(data) => {
            if reports_lock(data) {
                write_reg_mask_tracks(c, f.port, 0x1a, 0x08, 0x08);
                tracks_after_none(c, p, f, r);
            } else {
                unchanged_tracks(c, p, r);
            }
        },
        _ => {
            unchanged_tracks(c, p, r);
        },
    }
}

/// Setting the bandwidth keeps the shadow true.
pub proof fn set_bw_tracks(c: Chip, p: Port, bw: u32)
    ensures
        tracks(c, p, r82xx_set_bw_run(c, p, bw)),
{
    let plan = band_plan((bw as i32) as int);
    chip_steps_track(Chip { int_freq: plan.int_freq, ..c }, p, band_steps(plan));
}

/// Setting the gain keeps the shadow true.
pub proof fn set_gain_tracks(c: Chip, p: Port, gain: i32)
    ensures
        tracks(c, p, r82xx_set_gain_run(c, p, gain)),
{
    let r = r82xx_set_gain_run(c, p, gain);
    chip_steps_track(c, p, auto_off_steps());
    let a = chip_steps_run(c, p, auto_off_steps());
    if a.flow is Done {
        read_leaves_alone(a.state, a.port, 0x00, 4);
        let f = read_run(a.state, a.port, 0x00, 4);
        if f.flow is Done {
            chip_steps_track(a.state, f.port, gain_steps(gain_rung(gain as int)));
            tracks_after_none(a.state, a.port, f, r);
            tracks_in_turn(c, p, a, r);
        } else {
            tracks_when_stopped(c, p, a, r);
        }
    }
}

/// Switching between manual and automatic gain keeps the shadow true.
pub proof fn set_gain_mode_tracks(c: Chip, p: Port, manual: bool)
    ensures
        tracks(c, p, r82xx_set_gain_mode_run(c, p, manual)),
{
    chip_steps_track(c, p, gain_mode_steps(manual));
}

/// Changing a pin leaves the tuner's registers alone.
pub proof fn pin_leaves_alone(i2c_addr: u8, p: Port, addr: u16, gpio: u8, on: bool)
    ensures
        leaves_alone(i2c_addr, p, pin_run(p, addr, gpio, on)),
{
    let r = pin_run(p, addr, gpio, on);
    let f = read_reg_run(p, Block::Sys, addr);
    assert forall|hw: Seq<u8>|
        #[trigger] written(hw, i2c_addr, r.port.sent, p.sent.len() as int) == hw by {
        assert(f.port.sent.drop_last() =~= p.sent);
        assert(written(hw, i2c_addr, p.sent, p.sent.len() as int) == hw);
        assert(written(hw, i2c_addr, f.port.sent, p.sent.len() as int) == hw);
        if r.port.sent.len() > f.port.sent.len() {
            assert(r.port.sent.drop_last() =~= f.port.sent);
        } else {
            assert(r.port.sent =~= f.port.sent);
        }
    }
}

proof fn leave_alone_in_turn<A, B>(i2c_addr: u8, p: Port, a: Run<(), A>, b: Run<(), B>)
    requires
        leaves_alone(i2c_addr, p, a),
        leaves_alone(i2c_addr, a.port, b),
    ensures
        leaves_alone(i2c_addr, p, b),
{
    assert forall|hw: Seq<u8>|
        #[trigger] written(hw, i2c_addr, b.port.sent, p.sent.len() as int) == hw by {
        written_in_parts(hw, i2c_addr, a.port.sent, b.port.sent, p.sent.len() as int);
        assert(written(hw, i2c_addr, a.port.sent, p.sent.len() as int) == hw);
    }
}

proof fn upconverter_leaves_alone(i2c_addr: u8, p: Port, on: bool)
    ensures
        leaves_alone(i2c_addr, p, upconverter_run(p, on)),
{
    pin_leaves_alone(i2c_addr, p, GPD, 5, false);
    let d = pin_run(p, GPD, 5, false);
    pin_leaves_alone(i2c_addr, d.port, GPOE, 5, true);
    leave_alone_in_turn(i2c_addr, p, d, pin_run(d.port, GPOE, 5, true));
    let g = set_gpio_output_run(p, 5);
    pin_leaves_alone(i2c_addr, g.port, GPO, 5, !on);
    leave_alone_in_turn(i2c_addr, p, g, pin_run(g.port, GPO, 5, !on));
}

proof fn switch_band_tracks(c: Chip, p: Port, band: u8)
    ensures
        tracks(c, p, switch_band_run(c, p, band)),
{
    let cable_2_in: u8 = if band == HF {
        0x08
    } else {
        0x00
    };
    let cable = seq![ChipStep::Mask { reg: 0x06, val: cable_2_in, mask: 0x08 }];
    let start = Chip { input: band, ..c };
    chip_steps_track(start, p, cable);
    let a = chip_steps_run(start, p, cable);
    if a.flow is Done {
        upconverter_leaves_alone(a.state.i2c_addr, a.port, band == HF);
        let g = upconverter_run(a.port, band == HF);
        if g.flow is Done {
            let z = chip_steps_run(a.state, g.port, band_inputs(band));
            chip_steps_track(a.state, g.port, band_inputs(band));
            tracks_after_none(a.state, a.port, g, z);
            tracks_in_turn(c, p, a, z);
        } else {
            tracks_when_stopped(c, p, a, switch_band_run(c, p, band));
        }
    }
}

/// Choosing the input keeps the shadow true.
pub proof fn choose_input_tracks(c: Chip, p: Port, freq: u32)
    ensures
        tracks(c, p, choose_input_run(c, p, freq)),
{
    let open_d: u8 = if blog_v4_notch_off(freq) {
        0x00
    } else {
        0x08
    };
    let notch = seq![ChipStep::Mask { reg: 0x17, val: open_d, mask: 0x08 }];
    chip_steps_track(c, p, notch);
    let a = chip_steps_run(c, p, notch);
    if a.flow is Done {
        switch_band_tracks(a.state, a.port, blog_v4_band(freq));
        tracks_in_turn(c, p, a, switch_band_run(a.state, a.port, blog_v4_band(freq)));
    }
    chip_steps_track(
        Chip { input: r828d_input(freq), ..c },
        p,
        seq![ChipStep::Mask { reg: 0x05, val: r828d_input(freq), mask: 0x60 }],
    );
}

/// Setting the frequency keeps the shadow true.
pub proof fn set_freq_tracks(c: Chip, p: Port, freq: u32)
    ensures
        tracks(c, p, r82xx_set_freq_run(c, p, freq)),
{
    let lo = lo_freq(c, freq);
    let range = freq_range_at(freq_range_idx(lo as int / 1_000_000));
    chip_steps_track(c, p, mux_steps(range, c.xtal_cap_sel));
    let a = set_mux_run(c, p, lo);
    if a.flow is Done {
        set_pll_tracks(a.state, a.port, lo);
        let l = set_pll_run(a.state, a.port, lo);
        tracks_in_turn(c, p, a, l);
        if l.flow is Done {
            choose_input_tracks(l.state, l.port, freq);
            tracks_in_turn(c, p, l, choose_input_run(l.state, l.port, freq));
        }
    }
}

/// Setting the system parameters keeps the shadow true.
pub proof fn sysfreq_sel_tracks(c: Chip, p: Port)
    ensures
        tracks(c, p, sysfreq_sel_run(c, p)),
{
    let opening = sysfreq_opening(c.use_predetect);
    chip_steps_track(c, p, opening);
    let a = chip_steps_run(c, p, opening);
    if a.flow is Done {
        let between = Run { state: Chip { input: 0, ..a.state }, ..a };
        chip_steps_track(between.state, between.port, sysfreq_closing());
        tracks_in_turn(c, p, between, chip_steps_run(between.state, a.port, sysfreq_closing()));
    }
}

/// Standby keeps the shadow true.
pub proof fn standby_tracks(c: Chip, p: Port)
    ensures
        tracks(c, p, standby_run(c, p)),
{
    chip_steps_track(c, p, standby_steps());
}

proof fn calibration_result_tracks(c: Chip, p: Port)
    ensures
        tracks(c, p, calibration_result_run(c, p)),
{
    let r = calibration_result_run(c, p);
    chip_steps_track(c, p, calibration_trigger());
    let t = chip_steps_run(c, p, calibration_trigger());
    if t.flow is Done {
        read_leaves_alone(t.state, t.port, 0x00, 5);
        let f = read_run(t.state, t.port, 0x00, 5);
        if f.flow is Done {
            let n = f.port.sent.len() as int;
            assert(f.port.sent.take(n) =~= f.port.sent);
            assert(written(t.state.regs, c.i2c_addr, f.port.sent, t.port.sent.len() as int)
                == t.state.regs);
            assert(written_upto(
                t.state.regs,
                c.i2c_addr,
                f.port.sent,
                t.port.sent.len(),
                n,
                r.state.regs,
            ));
            assert(tracks(t.state, t.port, r));
            tracks_in_turn(c, p, t, r);
        } else {
            tracks_when_stopped(c, p, t, r);
        }
    }
}

proof fn calibrate_tracks(c: Chip, p: Port)
    ensures
        tracks(c, p, calibrate_run(c, p)),
{
    chip_steps_track(c, p, calibration_opening());
    let a = chip_steps_run(c, p, calibration_opening());
    if a.flow is Done {
        set_pll_tracks(a.state, a.port, FILT_CAL_LO);
        let l = calibration_pll_run(a.state, a.port);
        assert(tracks(a.state, a.port, l));
        tracks_in_turn(c, p, a, l);
        if l.flow is Done {
            calibration_result_tracks(l.state, l.port);
            tracks_in_turn(c, p, l, calibration_result_run(l.state, l.port));
        }
    }
}

proof fn calibrations_track(c: Chip, p: Port)
    ensures
        tracks(c, p, calibrations_run(c, p)),
{
    calibrate_tracks(c, p);
    let a = calibrate_run(c, p);
    if a.flow is Done {
        calibrate_tracks(a.state, a.port);
        tracks_in_turn(c, p, a, calibrate_run(a.state, a.port));
    }
}

proof fn tv_closing_tracks(c: Chip, p: Port)
    ensures
        tracks(c, p, tv_closing_run(c, p)),
{
    let code: u8 = if c.fil_cal_code == 0x0f {
        0
    } else {
        c.fil_cal_code
    };
    let kept = Chip { fil_cal_code: code, ..c };
    chip_steps_track(kept, p, tv_closing(code));
    let z = chip_steps_run(kept, p, tv_closing(code));
    let r = tv_closing_run(c, p);
    assert(r.state.regs == z.state.regs && r.port == z.port);
}

proof fn calibrated_tv_standard_tracks(c: Chip, p: Port)
    ensures
        ({
            let k = calibrations_run(c, p);
            k.flow is Done ==> tracks(c, p, tv_closing_run(k.state, k.port))
        }),
        tracks(c, p, calibrations_run(c, p)),
{
    calibrations_track(c, p);
    let k = calibrations_run(c, p);
    if k.flow is Done {
        tv_closing_tracks(k.state, k.port);
        tracks_in_turn(c, p, k, tv_closing_run(k.state, k.port));
    }
}

/// Setting the TV standard keeps the shadow true, where it starts from the
/// power-on values.
#[verifier::rlimit(40)]
pub proof fn set_tv_standard_tracks(c: Chip, p: Port)
    requires
        with_init_values(c.regs) == c.regs,
    ensures
        tracks(c, p, set_tv_standard_run(c, p)),
{
    chip_steps_track(c, p, tv_opening());
    let a = chip_steps_run(c, p, tv_opening());
    if a.flow is Done {
        let between = Run { state: Chip { int_freq: 3_570_000, ..a.state }, ..a };
        calibrated_tv_standard_tracks(between.state, between.port);
        assert(tracks(c, p, between));
        tracks_in_turn(c, p, between, set_tv_standard_run(c, p));
    }
}

/// After an initialisation that finished the shadow is true of the registers that
/// it loads, whatever they held before.
pub proof fn init_makes_shadow_true(c: Chip, p: Port, hw: Seq<u8>, k: int)
    requires
        hw.len() == NUM_REGS,
        0 <= k < NUM_INIT_REGS,
        r82xx_init_run(c, p).flow is Done,
    ensures
        ({
            let r = r82xx_init_run(c, p);
            written(hw, c.i2c_addr, r.port.sent, p.sent.len() as int)[k] == r.state.regs[k]
        }),
{
    let zeros = Seq::new(NUM_REGS as nat, |k: int| 0u8);
    let start = Chip { xtal_cap_sel: XtalCapValue::HighCap0p, regs: zeros, ..c };
    let init = R82XX_INIT_ARRAY@;
    let a = write_run(start, p, 0x05, init);
    assert(zeros.subrange(0, 27)[0] != init[0]);
    messages_write_the_values(hw, p, c.i2c_addr, c.max_i2c_msg_len, 5, init);
    write_tracks(start, p, 0x05, init);
    assert(with_init_values(a.state.regs) =~= a.state.regs);
    init_rest_tracks(a.state, a.port);
    let s = sysfreq_sel_run(
        set_tv_standard_run(a.state, a.port).state,
        set_tv_standard_run(a.state, a.port).port,
    );
    finished_run_tracks_all(a.state, a.port, s);
    finished_run_tracks_all(start, p, a);
    let hw1 = stored(hw, 5, init);
    written_in_parts(hw, c.i2c_addr, a.port.sent, s.port.sent, p.sent.len() as int);
    written_one_by_one(hw1, a.state.regs, c.i2c_addr, s.port.sent, a.port.sent.len() as int, k);
}

proof fn init_rest_tracks(c: Chip, p: Port)
    requires
        with_init_values(c.regs) == c.regs,
        set_tv_standard_run(c, p).flow is Done,
    ensures
        ({
            let t = set_tv_standard_run(c, p);
            tracks(c, p, sysfreq_sel_run(t.state, t.port))
        }),
{
    let t = set_tv_standard_run(c, p);
    set_tv_standard_tracks(c, p);
    sysfreq_sel_tracks(t.state, t.port);
    tracks_in_turn(c, p, t, sysfreq_sel_run(t.state, t.port));
}

} // verus!
