//! When the operations of the R82XX driver go through: with every transfer answered in full
//! they fail for what the tuner cannot do, and for nothing else.

use vstd::prelude::*;

use crate::exchange::{goes_on, in_turn, Answer, Flow, Port, Run, Transfer};
use crate::reg::{Block, GPD, GPO, GPOE};
use crate::tuner::r82xx::{
    band_inputs, blog_v4_band, blog_v4_notch_off, calibrate_resumes, calibrate_run,
    calibration_opening, calibration_pll_run, calibration_trigger, calibrations_resume,
    calibrations_run, choose_input_resumes, choose_input_run, freq_range_idx, lo_freq, mux_steps,
    r828d_input, r82xx_init_run, r82xx_set_freq_run, set_mux_resumes, set_mux_run,
    set_tv_standard_resumes, set_tv_standard_run, switch_band_resumes, switch_band_run,
    sysfreq_closing, sysfreq_opening, sysfreq_sel_resumes, sysfreq_sel_run, tv_closing,
    tv_closing_run, tv_opening, upconverter_resumes, upconverter_run, with_init_values, Chip,
    FILT_CAL_LO,
};
use crate::tuner::r82xx::bandwidth::{band_plan, band_steps, r82xx_set_bw_run};
use crate::tuner::r82xx::constants::{
    freq_range_at, XtalCapValue, HF, NUM_REGS, R82XX_INIT_ARRAY, REG_SHADOW_START,
};
use crate::tuner::r82xx::effect::{
    in_shadow, set_pll_touches_only_the_shadow, step_leaves_its_effect, steps_leave_their_effect,
};
use crate::tuner::r82xx::front_end::oscillator_for;
use crate::tuner::r82xx::gain::{
    auto_off_steps, gain_mode_steps, gain_rung, gain_steps, r82xx_set_gain_mode_run,
    r82xx_set_gain_run,
};
use crate::tuner::r82xx::i2c::{
    cached, chip_steps_resume, chip_steps_run, chunk_size, holds, masked, messages_resume,
    messages_run, read_resumes, read_run, write_reg_mask_resumes, write_reg_mask_run, write_resumes,
    write_run, ChipStep,
};
use crate::tuner::r82xx::oscillator::look_at;
use crate::tuner::r82xx::pll::{
    divided_resumes, divider, divider_exists_once, divider_number, in_khz, lock_resumes, lock_run,
    pll_regs, pll_shadow, pll_word, program_resumes, program_run, reports_lock, second_look_resumes,
    set_pll_resumes, set_pll_run, tuned_number, usual_crystals_reach_every_divided_frequency,
};
use crate::tuner::r82xx::setup::standard_keeps_the_shadow;
use crate::usb::{
    i2c_write_run, pin_resumes, pin_run, read_reg_run, set_gpio_output_resumes, set_gpio_output_run,
};
use crate::wire::{answered_in_full, answered_in_part, taken_in_part, taken_whole};

verus! {

/// Messages that were all taken whole do not fail.
pub proof fn taken_messages_go_through(p: Port, i2c_addr: u8, max_msg_len: nat, reg: int, val: Seq<u8>)
    requires
        taken_whole(
            messages_run(p, i2c_addr, max_msg_len, reg, val).port,
            p.sent.len() as int,
        ),
    ensures
        !(messages_run(p, i2c_addr, max_msg_len, reg, val).flow is Failed),
    decreases val.len(),
{
    if val.len() > 0 {
        let size = chunk_size(val.len(), max_msg_len, (NUM_REGS + 1) as nat);
        let data = seq![reg as u8] + val.take(size as int);
        let w = i2c_write_run(p, i2c_addr, data);
        let rest = val.skip(size as int);
        let r = messages_run(p, i2c_addr, max_msg_len, reg, val);
        messages_resume(w.port, i2c_addr, max_msg_len, reg + size, rest, Seq::empty());
        let at = p.sent.len() as int;
        assert(w.port.sent[at] == r.port.sent[at]);
        assert(data.len() == size + 1);
        if w.flow is Done {
            taken_in_part(r.port, r.port, at, w.port.sent.len() as int);
            taken_messages_go_through(w.port, i2c_addr, max_msg_len, reg + size, rest);
        }
    }
}

/// Register writes that were all taken whole do not fail.
pub proof fn taken_writes_go_through(c: Chip, p: Port, steps: Seq<ChipStep>)
    requires
        c.regs.len() == NUM_REGS,
        forall|i: int| 0 <= i < steps.len() ==> in_shadow(#[trigger] steps[i]),
        taken_whole(chip_steps_run(c, p, steps).port, p.sent.len() as int),
    ensures
        !(chip_steps_run(c, p, steps).flow is Failed),
    decreases steps.len(),
{
    if steps.len() > 0 {
        let s = steps[0].run(c, p);
        let r = chip_steps_run(c, p, steps);
        let rest = steps.drop_first();
        assert(in_shadow(steps[0]));
        step_leaves_its_effect(c, p, steps[0]);
        chip_steps_resume(s.state, s.port, rest, Seq::empty());
        taken_in_part(s.port, r.port, p.sent.len() as int, p.sent.len() as int);
        let (reg, val): (u8, u8) = match steps[0] {
            ChipStep::Mask { reg, val, mask } => (
                reg,
                masked(c.regs[reg - REG_SHADOW_START], val, mask),
            ),
            ChipStep::Put { reg, val } => (reg, val),
        };
        messages_resume(p, c.i2c_addr, c.max_i2c_msg_len, reg as int, seq![val], Seq::empty());
        if !holds(c.regs, reg as int, seq![val]) {
            taken_messages_go_through(
                p,
                c.i2c_addr,
                c.max_i2c_msg_len,
                reg as int,
                seq![val],
            );
        }
        if s.flow is Done {
            assert forall|i: int| 0 <= i < rest.len() implies in_shadow(#[trigger] rest[i]) by {
                assert(rest[i] == steps[i + 1]);
            }
            taken_in_part(r.port, r.port, p.sent.len() as int, s.port.sent.len() as int);
            taken_writes_go_through(s.state, s.port, rest);
        }
    }
}

proof fn read_goes_through(c: Chip, p: Port, reg: u8, len: nat)
    requires
        answered_in_full(read_run(c, p, reg, len).port, p.sent.len() as int),
    ensures
        !(read_run(c, p, reg, len).flow is Failed),
{
    let f = read_run(c, p, reg, len);
    let w = i2c_write_run(p, c.i2c_addr, seq![reg]);
    let at = p.sent.len() as int;
    assert(f.port.sent[at] == w.port.sent[at]);
    if w.flow is Done {
        assert(f.port.sent[at + 1] == f.port.sent.last());
    }
}

/// Setting the bandwidth goes through where every write is taken whole.
pub proof fn bandwidth_goes_through(c: Chip, p: Port, bw: u32)
    requires
        c.regs.len() == NUM_REGS,
        taken_whole(r82xx_set_bw_run(c, p, bw).port, p.sent.len() as int),
    ensures
        !(r82xx_set_bw_run(c, p, bw).flow is Failed),
{
    let plan = band_plan((bw as i32) as int);
    taken_writes_go_through(Chip { int_freq: plan.int_freq, ..c }, p, band_steps(plan));
}

/// Switching the gain mode goes through where every write is taken whole.
pub proof fn gain_mode_goes_through(c: Chip, p: Port, manual: bool)
    requires
        c.regs.len() == NUM_REGS,
        taken_whole(r82xx_set_gain_mode_run(c, p, manual).port, p.sent.len() as int),
    ensures
        !(r82xx_set_gain_mode_run(c, p, manual).flow is Failed),
{
    taken_writes_go_through(c, p, gain_mode_steps(manual));
}

/// Setting the gain, to whatever it is, goes through where every transfer is answered in
/// full.
pub proof fn gain_goes_through(c: Chip, p: Port, gain: i32)
    requires
        c.regs.len() == NUM_REGS,
        answered_in_full(r82xx_set_gain_run(c, p, gain).port, p.sent.len() as int),
    ensures
        !(r82xx_set_gain_run(c, p, gain).flow is Failed),
{
    let r = r82xx_set_gain_run(c, p, gain);
    let at = p.sent.len() as int;
    let a = chip_steps_run(c, p, auto_off_steps());
    steps_leave_their_effect(c, p, auto_off_steps());
    chip_steps_resume(c, p, auto_off_steps(), Seq::empty());
    let f = read_run(a.state, a.port, 0x00, 4);
    read_resumes(a.state, a.port, 0x00, 4, Seq::empty());
    let steps = gain_steps(gain_rung(gain as int));
    chip_steps_resume(a.state, f.port, steps, Seq::empty());
    if a.flow is Done {
        in_turn(a.port, f.port, r.port);
    }
    taken_in_part(a.port, r.port, at, at);
    taken_writes_go_through(c, p, auto_off_steps());
    if a.flow is Done {
        answered_in_part(f.port, r.port, at, a.port.sent.len() as int);
        read_goes_through(a.state, a.port, 0x00, 4);
        if f.flow is Done {
            taken_in_part(r.port, r.port, at, f.port.sent.len() as int);
            taken_writes_go_through(a.state, f.port, steps);
        }
    }
}

proof fn write_goes_through(c: Chip, p: Port, reg: u8, val: Seq<u8>)
    requires
        taken_whole(write_run(c, p, reg, val).port, p.sent.len() as int),
    ensures
        !(write_run(c, p, reg, val).flow is Failed),
{
    if !holds(c.regs, reg as int, val) {
        taken_messages_go_through(p, c.i2c_addr, c.max_i2c_msg_len, reg as int, val);
    }
}

proof fn masked_write_goes_through(c: Chip, p: Port, reg: u8, val: u8, mask: u8)
    requires
        5 <= reg < 35,
        taken_whole(write_reg_mask_run(c, p, reg, val, mask).port, p.sent.len() as int),
    ensures
        !(write_reg_mask_run(c, p, reg, val, mask).flow is Failed),
{
    let old_val = cached(c.regs, reg)->0;
    write_goes_through(c, p, reg, seq![masked(old_val, val, mask)]);
}

/// Whether every look for a lock from the position `from` on that was answered reports one.
pub open spec fn finds_lock(i2c_addr: u8, port: Port, from: int) -> bool {
    forall|i: int|
        from <= i < port.sent.len() && i < port.replies.len() && #[trigger] port.sent[i] == (
        Transfer::In { value: i2c_addr as u16, index: 0x0600, len: 3 }) ==> (
        port.replies[i] matches Answer::Received(data) ==> (data[2] / 2) % 2 == 1)
}

/// A lock that every look finds is found by the looks of each part of the conversation.
pub proof fn lock_found_in_part(i2c_addr: u8, early: Port, late: Port, from: int, later_from: int)
    requires
        finds_lock(i2c_addr, late, from),
        goes_on(early.sent, late.sent),
        early.replies == late.replies,
        0 <= from <= later_from,
    ensures
        finds_lock(i2c_addr, early, later_from),
{
    assert forall|i: int|
        later_from <= i < early.sent.len() && i < early.replies.len() && #[trigger] early.sent[i]
            == (Transfer::In { value: i2c_addr as u16, index: 0x0600, len: 3 }) implies (
    early.replies[i] matches Answer::Received(data) ==> (data[2] / 2) % 2 == 1) by {
        assert(late.sent[i] == early.sent[i]);
    }
}

proof fn lock_goes_through(c: Chip, p: Port, freq: u32)
    requires
        c.regs.len() == NUM_REGS,
        answered_in_full(lock_run(c, p, freq).port, p.sent.len() as int),
        finds_lock(c.i2c_addr, lock_run(c, p, freq).port, p.sent.len() as int),
    ensures
        !(lock_run(c, p, freq).flow is Failed),
{
    let r = lock_run(c, p, freq);
    let at = p.sent.len() as int;
    let f = read_run(c, p, 0x00, 3);
    read_resumes(c, p, 0x00, 3, Seq::empty());
    let w = write_reg_mask_run(c, f.port, 0x1a, 0x08, 0x08);
    write_reg_mask_resumes(c, f.port, 0x1a, 0x08, 0x08, Seq::empty());
    if f.flow is Done {
        look_at(c, p);
        let data = f.flow->Done_0;
        lock_resumes(c, p, freq, Seq::empty());
        assert(goes_on(f.port.sent, r.port.sent)) by {
            if !reports_lock(data) {
                let x = write_reg_mask_run(c, f.port, 0x12, 0x60, 0xe0);
                write_reg_mask_resumes(c, f.port, 0x12, 0x60, 0xe0, Seq::empty());
                second_look_resumes(x.state, x.port, freq, Seq::empty());
                if x.flow is Done {
                    in_turn(f.port, x.port, r.port);
                }
            }
        }
        assert(r.port.sent[at + 1] == f.port.sent[at + 1]);
        assert(reports_lock(data));
        taken_in_part(r.port, r.port, at, f.port.sent.len() as int);
        masked_write_goes_through(c, f.port, 0x1a, 0x08, 0x08);
    } else {
        read_goes_through(c, p, 0x00, 3);
    }
}

proof fn program_goes_through(c: Chip, p: Port, freq: u32, n: int, status: u8)
    requires
        c.regs.len() == NUM_REGS,
        28_000_000 <= c.xtal <= 60_000_000,
        divider_number(in_khz(freq)) == Some(n),
        answered_in_full(program_run(c, p, freq, n, status).port, p.sent.len() as int),
        finds_lock(c.i2c_addr, program_run(c, p, freq, n, status).port, p.sent.len() as int),
    ensures
        !(program_run(c, p, freq, n, status).flow is Failed),
{
    usual_crystals_reach_every_divided_frequency(c.rafael_chip, c.xtal, freq, n);
    let r = program_run(c, p, freq, n, status);
    let at = p.sent.len() as int;
    let word = pll_word(c.xtal, freq, divider(n));
    let regs = pll_regs(pll_shadow(c), tuned_number(c.rafael_chip, n, status), word);
    let w = write_run(c, p, 0x10, regs);
    write_resumes(c, p, 0x10, regs, Seq::empty());
    lock_resumes(w.state, w.port, freq, Seq::empty());
    taken_in_part(w.port, r.port, at, at);
    write_goes_through(c, p, 0x10, regs);
    if w.flow is Done {
        answered_in_part(r.port, r.port, at, w.port.sent.len() as int);
        lock_found_in_part(c.i2c_addr, r.port, r.port, at, w.port.sent.len() as int);
        lock_goes_through(w.state, w.port, freq);
    }
}

/// Setting the PLL goes through for every frequency from 27.657 to 1770 MHz and every
/// crystal from 28 to 60 MHz, where every transfer is answered in full and the lock is
/// found.
pub proof fn pll_goes_through(c: Chip, p: Port, freq: u32)
    requires
        c.regs.len() == NUM_REGS,
        28_000_000 <= c.xtal <= 60_000_000,
        27_656_500 <= freq < 1_769_999_500,
        answered_in_full(set_pll_run(c, p, freq).port, p.sent.len() as int),
        finds_lock(c.i2c_addr, set_pll_run(c, p, freq).port, p.sent.len() as int),
    ensures
        !(set_pll_run(c, p, freq).flow is Failed),
{
    let r = set_pll_run(c, p, freq);
    let at = p.sent.len() as int;
    divider_exists_once(in_khz(freq), 0);
    let n = divider_number(in_khz(freq))->0;
    let a = write_reg_mask_run(c, p, 0x1a, 0x00, 0x0c);
    write_reg_mask_resumes(c, p, 0x1a, 0x00, 0x0c, Seq::empty());
    divided_resumes(a.state, a.port, freq, n, Seq::empty());
    taken_in_part(a.port, r.port, at, at);
    masked_write_goes_through(c, p, 0x1a, 0x00, 0x0c);
    if a.flow is Done {
        let f = read_run(a.state, a.port, 0x00, 5);
        read_resumes(a.state, a.port, 0x00, 5, Seq::empty());
        if f.flow is Done {
            let status = f.flow->Done_0[4];
            program_resumes(a.state, f.port, freq, n, status, Seq::empty());
            answered_in_part(r.port, r.port, at, f.port.sent.len() as int);
            lock_found_in_part(c.i2c_addr, r.port, r.port, at, f.port.sent.len() as int);
            program_goes_through(a.state, f.port, freq, n, status);
        } else {
            answered_in_part(f.port, r.port, at, a.port.sent.len() as int);
            read_goes_through(a.state, a.port, 0x00, 5);
        }
    }
}

/// Changing a pin goes through where every transfer is answered in full.
pub proof fn pin_goes_through(p: Port, addr: u16, gpio: u8, on: bool)
    requires
        answered_in_full(pin_run(p, addr, gpio, on).port, p.sent.len() as int),
    ensures
        !(pin_run(p, addr, gpio, on).flow is Failed),
{
    let r = pin_run(p, addr, gpio, on);
    let f = read_reg_run(p, Block::Sys, addr);
    let at = p.sent.len() as int;
    assert(r.port.sent[at] == f.port.sent[at]);
    if f.flow is Done {
        assert(r.port.sent[at + 1] == r.port.sent.last());
    }
}

/// Making a pin an output goes through where every transfer is answered in full.
pub proof fn output_goes_through(p: Port, gpio: u8)
    requires
        answered_in_full(set_gpio_output_run(p, gpio).port, p.sent.len() as int),
    ensures
        !(set_gpio_output_run(p, gpio).flow is Failed),
{
    let r = set_gpio_output_run(p, gpio);
    let at = p.sent.len() as int;
    let d = pin_run(p, GPD, gpio, false);
    pin_resumes(p, GPD, gpio, false, Seq::empty());
    pin_resumes(d.port, GPOE, gpio, true, Seq::empty());
    answered_in_part(d.port, r.port, at, at);
    pin_goes_through(p, GPD, gpio, false);
    if d.flow is Done {
        answered_in_part(r.port, r.port, at, d.port.sent.len() as int);
        pin_goes_through(d.port, GPOE, gpio, true);
    }
}

proof fn upconverter_goes_through(p: Port, on: bool)
    requires
        answered_in_full(upconverter_run(p, on).port, p.sent.len() as int),
    ensures
        !(upconverter_run(p, on).flow is Failed),
{
    let r = upconverter_run(p, on);
    let at = p.sent.len() as int;
    let g = set_gpio_output_run(p, 5);
    set_gpio_output_resumes(p, 5, Seq::empty());
    pin_resumes(g.port, GPO, 5, !on, Seq::empty());
    answered_in_part(g.port, r.port, at, at);
    output_goes_through(p, 5);
    if g.flow is Done {
        answered_in_part(r.port, r.port, at, g.port.sent.len() as int);
        pin_goes_through(g.port, GPO, 5, !on);
    }
}

proof fn band_goes_through(c: Chip, p: Port, band: u8)
    requires
        c.regs.len() == NUM_REGS,
        answered_in_full(switch_band_run(c, p, band).port, p.sent.len() as int),
    ensures
        !(switch_band_run(c, p, band).flow is Failed),
{
    let r = switch_band_run(c, p, band);
    let at = p.sent.len() as int;
    let cable_2_in: u8 = if band == HF {
        0x08
    } else {
        0x00
    };
    let start = Chip { input: band, ..c };
    let steps = seq![ChipStep::Mask { reg: 0x06, val: cable_2_in, mask: 0x08 }];
    let a = chip_steps_run(start, p, steps);
    chip_steps_resume(start, p, steps, Seq::empty());
    steps_leave_their_effect(start, p, steps);
    let g = upconverter_run(a.port, band == HF);
    upconverter_resumes(a.port, band == HF, Seq::empty());
    chip_steps_resume(a.state, g.port, band_inputs(band), Seq::empty());
    if a.flow is Done {
        in_turn(a.port, g.port, r.port);
    }
    taken_in_part(a.port, r.port, at, at);
    taken_writes_go_through(start, p, steps);
    if a.flow is Done {
        answered_in_part(g.port, r.port, at, a.port.sent.len() as int);
        upconverter_goes_through(a.port, band == HF);
        if g.flow is Done {
            taken_in_part(r.port, r.port, at, g.port.sent.len() as int);
            taken_writes_go_through(a.state, g.port, band_inputs(band));
        }
    }
}

proof fn input_goes_through(c: Chip, p: Port, freq: u32)
    requires
        c.regs.len() == NUM_REGS,
        answered_in_full(choose_input_run(c, p, freq).port, p.sent.len() as int),
    ensures
        !(choose_input_run(c, p, freq).flow is Failed),
{
    let r = choose_input_run(c, p, freq);
    let at = p.sent.len() as int;
    if c.is_blog_v4 {
        let open_d: u8 = if blog_v4_notch_off(freq) {
            0x00
        } else {
            0x08
        };
        let steps = seq![ChipStep::Mask { reg: 0x17, val: open_d, mask: 0x08 }];
        let a = chip_steps_run(c, p, steps);
        chip_steps_resume(c, p, steps, Seq::empty());
        steps_leave_their_effect(c, p, steps);
        let band = blog_v4_band(freq);
        switch_band_resumes(a.state, a.port, band, Seq::empty());
        taken_in_part(a.port, r.port, at, at);
        taken_writes_go_through(c, p, steps);
        if a.flow is Done && band != a.state.input {
            answered_in_part(r.port, r.port, at, a.port.sent.len() as int);
            band_goes_through(a.state, a.port, band);
        }
    } else if r != (Run { state: c, port: p, flow: Flow::Done(()) }) {
        let start = Chip { input: r828d_input(freq), ..c };
        let steps = seq![ChipStep::Mask { reg: 0x05, val: r828d_input(freq), mask: 0x60 }];
        taken_writes_go_through(start, p, steps);
    }
}

/// Setting the frequency goes through wherever the local oscillator then lies from 27.657
/// to 1770 MHz, with a crystal from 28 to 60 MHz, where every transfer is answered in full
/// and the lock is found.
pub proof fn frequency_goes_through(c: Chip, p: Port, freq: u32)
    requires
        c.regs.len() == NUM_REGS,
        28_000_000 <= c.xtal <= 60_000_000,
        27_656_500 <= oscillator_for(c, freq) < 1_769_999_500,
        answered_in_full(r82xx_set_freq_run(c, p, freq).port, p.sent.len() as int),
        finds_lock(c.i2c_addr, r82xx_set_freq_run(c, p, freq).port, p.sent.len() as int),
    ensures
        !(r82xx_set_freq_run(c, p, freq).flow is Failed),
{
    let r = r82xx_set_freq_run(c, p, freq);
    let at = p.sent.len() as int;
    let lo = lo_freq(c, freq);
    let range = freq_range_at(freq_range_idx(lo as int / 1_000_000));
    let steps = mux_steps(range, c.xtal_cap_sel);
    let a = set_mux_run(c, p, lo);
    set_mux_resumes(c, p, lo, Seq::empty());
    steps_leave_their_effect(c, p, steps);
    let l = set_pll_run(a.state, a.port, lo);
    set_pll_resumes(a.state, a.port, lo, Seq::empty());
    set_pll_touches_only_the_shadow(a.state, a.port, lo);
    choose_input_resumes(l.state, l.port, freq, Seq::empty());
    if a.flow is Done {
        in_turn(a.port, l.port, r.port);
    }
    taken_in_part(a.port, r.port, at, at);
    taken_writes_go_through(c, p, steps);
    if a.flow is Done {
        answered_in_part(l.port, r.port, at, a.port.sent.len() as int);
        lock_found_in_part(c.i2c_addr, l.port, r.port, at, a.port.sent.len() as int);
        pll_goes_through(a.state, a.port, lo);
        if l.flow is Done {
            answered_in_part(r.port, r.port, at, l.port.sent.len() as int);
            input_goes_through(l.state, l.port, freq);
        }
    }
}

proof fn calibration_goes_through(c: Chip, p: Port)
    requires
        c.regs.len() == NUM_REGS,
        28_000_000 <= c.xtal <= 60_000_000,
        answered_in_full(calibrate_run(c, p).port, p.sent.len() as int),
        finds_lock(c.i2c_addr, calibrate_run(c, p).port, p.sent.len() as int),
    ensures
        !(calibrate_run(c, p).flow is Failed),
        calibrate_run(c, p).state == (Chip {
            regs: calibrate_run(c, p).state.regs,
            fil_cal_code: calibrate_run(c, p).state.fil_cal_code,
            ..c
        }),
        calibrate_run(c, p).state.regs.len() == NUM_REGS,
{
    let r = calibrate_run(c, p);
    let at = p.sent.len() as int;
    let a = chip_steps_run(c, p, calibration_opening());
    chip_steps_resume(c, p, calibration_opening(), Seq::empty());
    steps_leave_their_effect(c, p, calibration_opening());
    let l = calibration_pll_run(a.state, a.port);
    set_pll_resumes(a.state, a.port, FILT_CAL_LO, Seq::empty());
    set_pll_touches_only_the_shadow(a.state, a.port, FILT_CAL_LO);
    let t = chip_steps_run(l.state, l.port, calibration_trigger());
    chip_steps_resume(l.state, l.port, calibration_trigger(), Seq::empty());
    steps_leave_their_effect(l.state, l.port, calibration_trigger());
    let f = read_run(t.state, t.port, 0x00, 5);
    read_resumes(t.state, t.port, 0x00, 5, Seq::empty());
    if l.flow is Done && t.flow is Done {
        in_turn(l.port, t.port, f.port);
    }
    if a.flow is Done {
        in_turn(a.port, l.port, r.port);
    }
    taken_in_part(a.port, r.port, at, at);
    taken_writes_go_through(c, p, calibration_opening());
    if a.flow is Done {
        answered_in_part(l.port, r.port, at, a.port.sent.len() as int);
        lock_found_in_part(c.i2c_addr, l.port, r.port, at, a.port.sent.len() as int);
        pll_goes_through(a.state, a.port, FILT_CAL_LO);
        if l.flow is Done {
            taken_in_part(t.port, r.port, at, l.port.sent.len() as int);
            taken_writes_go_through(l.state, l.port, calibration_trigger());
            if t.flow is Done {
                answered_in_part(r.port, r.port, at, t.port.sent.len() as int);
                read_goes_through(t.state, t.port, 0x00, 5);
            }
        }
    }
}

proof fn calibrations_go_through(c: Chip, p: Port)
    requires
        c.regs.len() == NUM_REGS,
        28_000_000 <= c.xtal <= 60_000_000,
        answered_in_full(calibrations_run(c, p).port, p.sent.len() as int),
        finds_lock(c.i2c_addr, calibrations_run(c, p).port, p.sent.len() as int),
    ensures
        !(calibrations_run(c, p).flow is Failed),
        calibrations_run(c, p).state.regs.len() == NUM_REGS,
        calibrations_run(c, p).state.i2c_addr == c.i2c_addr,
{
    let r = calibrations_run(c, p);
    let at = p.sent.len() as int;
    let a = calibrate_run(c, p);
    calibrate_resumes(c, p, Seq::empty());
    calibrate_resumes(a.state, a.port, Seq::empty());
    answered_in_part(a.port, r.port, at, at);
    lock_found_in_part(c.i2c_addr, a.port, r.port, at, at);
    calibration_goes_through(c, p);
    if r != a {
        answered_in_part(r.port, r.port, at, a.port.sent.len() as int);
        lock_found_in_part(c.i2c_addr, r.port, r.port, at, a.port.sent.len() as int);
        calibration_goes_through(a.state, a.port);
    }
}

proof fn closing_goes_through(c: Chip, p: Port)
    requires
        c.regs.len() == NUM_REGS,
        taken_whole(tv_closing_run(c, p).port, p.sent.len() as int),
    ensures
        !(tv_closing_run(c, p).flow is Failed),
{
    let code: u8 = if c.fil_cal_code == 0x0f {
        0
    } else {
        c.fil_cal_code
    };
    taken_writes_go_through(Chip { fil_cal_code: code, ..c }, p, tv_closing(code));
}

proof fn closing_goes_on(c: Chip, p: Port)
    ensures
        goes_on(p.sent, tv_closing_run(c, p).port.sent),
        tv_closing_run(c, p).port.replies == p.replies,
{
    let code: u8 = if c.fil_cal_code == 0x0f {
        0
    } else {
        c.fil_cal_code
    };
    chip_steps_resume(Chip { fil_cal_code: code, ..c }, p, tv_closing(code), Seq::empty());
}

proof fn opening_goes_on(c: Chip, p: Port)
    requires
        c.regs.len() == NUM_REGS,
    ensures
        ({
            let a = chip_steps_run(c, p, tv_opening());
            &&& goes_on(p.sent, a.port.sent)
            &&& a.port.replies == p.replies
            &&& a.state == (Chip { regs: a.state.regs, ..c })
            &&& a.state.regs.len() == NUM_REGS
            &&& taken_whole(a.port, p.sent.len() as int) ==> !(a.flow is Failed)
        }),
{
    chip_steps_resume(c, p, tv_opening(), Seq::empty());
    steps_leave_their_effect(c, p, tv_opening());
    if taken_whole(chip_steps_run(c, p, tv_opening()).port, p.sent.len() as int) {
        taken_writes_go_through(c, p, tv_opening());
    }
}

proof fn calibrated_goes_through(c: Chip, p: Port, r: Run<Chip, ()>)
    requires
        c.regs.len() == NUM_REGS,
        28_000_000 <= c.xtal <= 60_000_000,
        ({
            let k = calibrations_run(c, p);
            r == (if k.flow is Done {
                tv_closing_run(k.state, k.port)
            } else {
                k
            })
        }),
        answered_in_full(r.port, p.sent.len() as int),
        finds_lock(c.i2c_addr, r.port, p.sent.len() as int),
    ensures
        !(r.flow is Failed),
        goes_on(p.sent, r.port.sent),
        r.port.replies == p.replies,
{
    let at = p.sent.len() as int;
    let k = calibrations_run(c, p);
    calibrations_resume(c, p, Seq::empty());
    closing_goes_on(k.state, k.port);
    if k.flow is Done {
        in_turn(p, k.port, r.port);
    }
    answered_in_part(k.port, r.port, at, at);
    lock_found_in_part(c.i2c_addr, k.port, r.port, at, at);
    calibrations_go_through(c, p);
    if k.flow is Done {
        taken_in_part(r.port, r.port, at, k.port.sent.len() as int);
        closing_goes_through(k.state, k.port);
    }
}

#[verifier::rlimit(30)]
proof fn standard_goes_through(c: Chip, p: Port)
    requires
        c.regs.len() == NUM_REGS,
        28_000_000 <= c.xtal <= 60_000_000,
        answered_in_full(set_tv_standard_run(c, p).port, p.sent.len() as int),
        finds_lock(c.i2c_addr, set_tv_standard_run(c, p).port, p.sent.len() as int),
    ensures
        !(set_tv_standard_run(c, p).flow is Failed),
{
    let r = set_tv_standard_run(c, p);
    let at = p.sent.len() as int;
    let start = Chip { regs: with_init_values(c.regs), ..c };
    let a = chip_steps_run(start, p, tv_opening());
    opening_goes_on(start, p);
    if a.flow is Done {
        let between = Chip { int_freq: 3_570_000, ..a.state };
        answered_in_part(r.port, r.port, at, a.port.sent.len() as int);
        lock_found_in_part(c.i2c_addr, r.port, r.port, at, a.port.sent.len() as int);
        calibrated_goes_through(between, a.port, r);
    }
}

proof fn sysfreq_goes_through(c: Chip, p: Port)
    requires
        c.regs.len() == NUM_REGS,
        taken_whole(sysfreq_sel_run(c, p).port, p.sent.len() as int),
    ensures
        !(sysfreq_sel_run(c, p).flow is Failed),
{
    let r = sysfreq_sel_run(c, p);
    let at = p.sent.len() as int;
    let opening = sysfreq_opening(c.use_predetect);
    let a = chip_steps_run(c, p, opening);
    chip_steps_resume(c, p, opening, Seq::empty());
    steps_leave_their_effect(c, p, opening);
    let start = Chip { input: 0, ..a.state };
    chip_steps_resume(start, a.port, sysfreq_closing(), Seq::empty());
    taken_in_part(a.port, r.port, at, at);
    taken_writes_go_through(c, p, opening);
    if a.flow is Done {
        taken_in_part(r.port, r.port, at, a.port.sent.len() as int);
        taken_writes_go_through(start, a.port, sysfreq_closing());
    }
}

/// Initialising the tuner goes through, with a crystal from 28 to 60 MHz, where every
/// transfer is answered in full and the lock is found.
pub proof fn init_goes_through(c: Chip, p: Port)
    requires
        28_000_000 <= c.xtal <= 60_000_000,
        answered_in_full(r82xx_init_run(c, p).port, p.sent.len() as int),
        finds_lock(c.i2c_addr, r82xx_init_run(c, p).port, p.sent.len() as int),
    ensures
        !(r82xx_init_run(c, p).flow is Failed),
{
    let r = r82xx_init_run(c, p);
    let at = p.sent.len() as int;
    let start = Chip {
        xtal_cap_sel: XtalCapValue::HighCap0p,
        regs: Seq::new(NUM_REGS as nat, |k: int| 0u8),
        ..c
    };
    let a = write_run(start, p, 0x05, R82XX_INIT_ARRAY@);
    write_resumes(start, p, 0x05, R82XX_INIT_ARRAY@, Seq::empty());
    let t = set_tv_standard_run(a.state, a.port);
    set_tv_standard_resumes(a.state, a.port, Seq::empty());
    sysfreq_sel_resumes(t.state, t.port, Seq::empty());
    if a.flow is Done {
        in_turn(a.port, t.port, r.port);
    }
    taken_in_part(a.port, r.port, at, at);
    write_goes_through(start, p, 0x05, R82XX_INIT_ARRAY@);
    if a.flow is Done {
        answered_in_part(t.port, r.port, at, a.port.sent.len() as int);
        lock_found_in_part(c.i2c_addr, t.port, r.port, at, a.port.sent.len() as int);
        standard_goes_through(a.state, a.port);
        if t.flow is Done {
            standard_keeps_the_shadow(a.state, a.port);
            taken_in_part(r.port, r.port, at, t.port.sent.len() as int);
            sysfreq_goes_through(t.state, t.port);
        }
    }
}

} // verus!
