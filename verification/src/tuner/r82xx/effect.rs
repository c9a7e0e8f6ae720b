//! What the operations of the R82XX driver leave behind.

use vstd::prelude::*;

use crate::error::{Fault, TunerFault};
use crate::exchange::{Flow, Port, Run, Transfer};
use crate::reg::Block;
use crate::tuner::r82xx::constants::{
    XtalCapValue, NUM_REGS, R82XX_INIT_ARRAY, REG_SHADOW_START,
};
use crate::tuner::r82xx::i2c::{
    chip_steps_run, chunk_size, holds, masked, messages_resume, messages_run, read_run, stored,
    write_reg_mask_run, write_run, ChipStep,
};
use crate::tuner::r82xx::pll::{
    divided_run, divider, divider_number, in_khz, lock_run, pll_regs, pll_shadow, pll_word,
    program_run, second_look_run, set_pll_run, tuned_number,
};
use crate::tuner::r82xx::{
    calibrate_run, calibration_opening, calibration_pll_run, calibration_result_run,
    calibration_trigger, calibrations_run, r82xx_init_run, set_tv_standard_run, standby_run,
    sysfreq_closing, sysfreq_opening, sysfreq_sel_run, tv_closing, tv_closing_run, tv_opening,
    with_init_values, Chip, FILT_CAL_LO,
};
use crate::usb::{i2c_write_run, write_index};

verus! {

/// Whether a step writes a register that has a shadow.
pub open spec fn in_shadow(step: ChipStep) -> bool {
    let reg = match step {
        ChipStep::Mask { reg, .. } => reg,
        ChipStep::Put { reg, .. } => reg,
    };
    REG_SHADOW_START <= reg < REG_SHADOW_START + NUM_REGS
}

/// The shadow after a step.
pub open spec fn step_effect(regs: Seq<u8>, step: ChipStep) -> Seq<u8> {
    match step {
        ChipStep::Mask { reg, val, mask } => {
            let at = reg - REG_SHADOW_START;
            regs.update(at, masked(regs[at], val, mask))
        },
        ChipStep::Put { reg, val } => regs.update(reg - REG_SHADOW_START, val),
    }
}

/// The shadow after a sequence of steps.
pub open spec fn steps_effect(regs: Seq<u8>, steps: Seq<ChipStep>) -> Seq<u8>
    decreases steps.len(),
{
    if steps.len() == 0 {
        regs
    } else {
        steps_effect(step_effect(regs, steps[0]), steps.drop_first())
    }
}

/// Whether a run touched nothing of the driver's state but the shadow.
pub open spec fn only_shadow<A>(c: Chip, r: Run<Chip, A>) -> bool {
    &&& r.state == (Chip { regs: r.state.regs, ..c })
    &&& r.state.regs.len() == c.regs.len()
}

/// A step that finished leaves its effect in the shadow; one that did not leaves
/// the state as it was.
pub proof fn step_leaves_its_effect(c: Chip, p: Port, step: ChipStep)
    requires
        c.regs.len() == NUM_REGS,
        in_shadow(step),
    ensures
        ({
            let r = step.run(c, p);
            r.state == (if r.flow is Done {
                Chip { regs: step_effect(c.regs, step), ..c }
            } else {
                c
            })
        }),
{
    let (reg, val): (u8, u8) = match step {
        ChipStep::Mask { reg, val, mask } => (
            reg,
            masked(c.regs[reg - REG_SHADOW_START], val, mask),
        ),
        ChipStep::Put { reg, val } => (reg, val),
    };
    let at = reg - REG_SHADOW_START;
    assert(stored(c.regs, reg as int, seq![val]) =~= c.regs.update(at, val));
    if holds(c.regs, reg as int, seq![val]) {
        assert(c.regs.subrange(at, at + 1)[0] == val);
        assert(c.regs.update(at, val) =~= c.regs);
    }
}

/// A sequence of steps that finished leaves its effect in the shadow and touches
/// nothing else.
pub proof fn steps_leave_their_effect(c: Chip, p: Port, steps: Seq<ChipStep>)
    requires
        c.regs.len() == NUM_REGS,
        forall|i: int| 0 <= i < steps.len() ==> in_shadow(#[trigger] steps[i]),
    ensures
        ({
            let r = chip_steps_run(c, p, steps);
            &&& only_shadow(c, r)
            &&& r.flow is Done ==> r.state.regs == steps_effect(c.regs, steps)
        }),
    decreases steps.len(),
{
    if steps.len() > 0 {
        assert(in_shadow(steps[0]));
        step_leaves_its_effect(c, p, steps[0]);
        let s = steps[0].run(c, p);
        if s.flow is Done {
            assert forall|i: int| 0 <= i < steps.drop_first().len() implies in_shadow(
                #[trigger] steps.drop_first()[i],
            ) by {
                assert(in_shadow(steps[i + 1]));
            }
            steps_leave_their_effect(s.state, s.port, steps.drop_first());
        }
    }
}

/// A register holds the same after the same steps, whatever the others held.
pub proof fn effects_are_one_by_one(
    one: Seq<u8>,
    other: Seq<u8>,
    steps: Seq<ChipStep>,
    k: int,
)
    requires
        one.len() == NUM_REGS,
        other.len() == NUM_REGS,
        0 <= k < NUM_REGS,
        one[k] == other[k],
        forall|i: int| 0 <= i < steps.len() ==> in_shadow(#[trigger] steps[i]),
    ensures
        steps_effect(one, steps).len() == NUM_REGS,
        steps_effect(other, steps).len() == NUM_REGS,
        steps_effect(one, steps)[k] == steps_effect(other, steps)[k],
    decreases steps.len(),
{
    if steps.len() > 0 {
        assert(in_shadow(steps[0]));
        assert forall|i: int| 0 <= i < steps.drop_first().len() implies in_shadow(
            #[trigger] steps.drop_first()[i],
        ) by {
            assert(in_shadow(steps[i + 1]));
        }
        effects_are_one_by_one(
            step_effect(one, steps[0]),
            step_effect(other, steps[0]),
            steps.drop_first(),
            k,
        );
    }
}

proof fn closing_clears_predetection(regs: Seq<u8>)
    requires
        regs.len() == NUM_REGS,
    ensures
        steps_effect(regs, sysfreq_closing()).len() == NUM_REGS,
        steps_effect(regs, sysfreq_closing())[1] == masked(
            masked(regs[1], 0x00, 0x08),
            0x00,
            0x40,
        ),
{
    reveal_with_fuel(steps_effect, 14);
}

proof fn opening_with_predetection(regs: Seq<u8>, k: int)
    requires
        regs.len() == NUM_REGS,
        0 <= k < NUM_REGS,
    ensures
        ({
            let with = steps_effect(regs, sysfreq_opening(true));
            let without = steps_effect(regs, sysfreq_opening(false));
            &&& with.len() == NUM_REGS
            &&& without.len() == NUM_REGS
            &&& k != 1 ==> with[k] == without[k]
            &&& with[1] == masked(regs[1], 0x40, 0x40)
            &&& without[1] == regs[1]
        }),
{
    reveal_with_fuel(steps_effect, 6);
}

/// Predetection leaves no trace: whether it is asked for or not, setting the system
/// parameters ends with the same registers.
pub proof fn predetection_leaves_no_trace(c: Chip, p: Port, q: Port)
    requires
        c.regs.len() == NUM_REGS,
        sysfreq_sel_run(Chip { use_predetect: true, ..c }, p).flow is Done,
        sysfreq_sel_run(Chip { use_predetect: false, ..c }, q).flow is Done,
    ensures
        sysfreq_sel_run(Chip { use_predetect: true, ..c }, p).state == (Chip {
            use_predetect: true,
            ..sysfreq_sel_run(Chip { use_predetect: false, ..c }, q).state
        }),
{
    let c1 = Chip { use_predetect: true, ..c };
    let c2 = Chip { use_predetect: false, ..c };
    steps_leave_their_effect(c1, p, sysfreq_opening(true));
    steps_leave_their_effect(c2, q, sysfreq_opening(false));
    let a1 = chip_steps_run(c1, p, sysfreq_opening(true));
    let a2 = chip_steps_run(c2, q, sysfreq_opening(false));
    steps_leave_their_effect(Chip { input: 0, ..a1.state }, a1.port, sysfreq_closing());
    steps_leave_their_effect(Chip { input: 0, ..a2.state }, a2.port, sysfreq_closing());
    let r1 = steps_effect(a1.state.regs, sysfreq_closing());
    let r2 = steps_effect(a2.state.regs, sysfreq_closing());
    assert forall|k: int| 0 <= k < NUM_REGS implies r1[k] == r2[k] by {
        opening_with_predetection(c.regs, k);
        if k == 1 {
            closing_clears_predetection(a1.state.regs);
            closing_clears_predetection(a2.state.regs);
            let v = c.regs[1];
            assert(masked(masked(masked(v, 0x40, 0x40), 0x00, 0x08), 0x00, 0x40) == masked(
                masked(v, 0x00, 0x08),
                0x00,
                0x40,
            )) by (bit_vector);
        } else {
            effects_are_one_by_one(a1.state.regs, a2.state.regs, sysfreq_closing(), k);
        }
    }
    closing_clears_predetection(a1.state.regs);
    closing_clears_predetection(a2.state.regs);
    assert(r1 =~= r2);
}

/// Setting the PLL touches nothing of the driver's state but the shadow.
pub proof fn set_pll_touches_only_the_shadow(c: Chip, p: Port, freq: u32)
    ensures
        only_shadow(c, set_pll_run(c, p, freq)),
{
    let a = write_reg_mask_run(c, p, 0x1a, 0x00, 0x0c);
    if let Some(n) = divider_number(in_khz(freq)) {
        let f = read_run(a.state, a.port, 0x00, 5);
        if let Flow::Done(data) = f.flow {
            let word = pll_word(c.xtal, freq, divider(n));
            let regs = pll_regs(
                pll_shadow(a.state),
                tuned_number(c.rafael_chip, n, data[4]),
                word,
            );
            let w = write_run(a.state, f.port, 0x10, regs);
            assert(only_shadow(c, w));
            lock_touches_only_the_shadow(w.state, w.port, freq);
            assert(only_shadow(c, program_run(a.state, f.port, freq, n, data[4])));
        }
        assert(only_shadow(c, divided_run(a.state, a.port, freq, n)));
    }
}

proof fn lock_touches_only_the_shadow(c: Chip, p: Port, freq: u32)
    ensures
        only_shadow(c, lock_run(c, p, freq)),
{
    let f = read_run(c, p, 0x00, 3);
    let w = write_reg_mask_run(c, f.port, 0x12, 0x60, 0xe0);
    assert(only_shadow(c, second_look_run(w.state, w.port, freq)));
}

/// A crystal of zero is refused before anything is sent.
pub proof fn zero_crystal_is_refused_first(c: Chip, p: Port, freq: u32)
    requires
        c.xtal == 0,
    ensures
        set_pll_run(c, p, freq) == (Run {
            state: c,
            port: p,
            flow: Flow::<()>::Failed(Fault::Tuner(TunerFault::XtalIsZero)),
        }),
{
}

/// A tuner that was never initialised is put into standby without a transfer.
pub proof fn standby_before_init_sends_nothing(c: Chip, p: Port)
    requires
        !c.init_done,
    ensures
        standby_run(c, p) == (Run { state: c, port: p, flow: Flow::Done(()) }),
{
}

proof fn calibrate_keeps_the_rest(c: Chip, p: Port)
    requires
        c.regs.len() == NUM_REGS,
    ensures
        ({
            let r = calibrate_run(c, p);
            &&& r.state == (Chip {
                regs: r.state.regs,
                fil_cal_code: r.state.fil_cal_code,
                ..c
            })
            &&& r.state.regs.len() == NUM_REGS
            &&& r.flow is Done ==> r.state.fil_cal_code <= 0x0f
        }),
{
    steps_leave_their_effect(c, p, calibration_opening());
    let a = chip_steps_run(c, p, calibration_opening());
    set_pll_touches_only_the_shadow(a.state, a.port, FILT_CAL_LO);
    let l = calibration_pll_run(a.state, a.port);
    steps_leave_their_effect(l.state, l.port, calibration_trigger());
    let t = chip_steps_run(l.state, l.port, calibration_trigger());
    let f = read_run(t.state, t.port, 0x00, 5);
    if let Flow::Done(data) = f.flow {
        let status = data[4];
        assert(status & 0x0f <= 0x0f) by (bit_vector);
    }
    assert(calibrate_run(c, p).flow is Done ==> calibration_result_run(
        l.state,
        l.port,
    ).flow is Done);
}

/// After an initialisation that finished the driver's state is known: initialised,
/// no crystal load, an intermediate frequency of 3.57 MHz, the first input, no
/// bandwidth, and a calibration code that is not the one for a failure.
#[verifier::rlimit(30)]
pub proof fn init_leaves_a_known_state(c: Chip, p: Port)
    requires
        r82xx_init_run(c, p).flow is Done,
    ensures
        ({
            let s = r82xx_init_run(c, p).state;
            &&& s == (Chip {
                regs: s.regs,
                fil_cal_code: s.fil_cal_code,
                xtal_cap_sel: XtalCapValue::HighCap0p,
                int_freq: 3_570_000,
                input: 0,
                init_done: true,
                bw: 0,
                ..c
            })
            &&& s.regs.len() == NUM_REGS
            &&& s.fil_cal_code < 0x0f
        }),
{
    let start = Chip {
        xtal_cap_sel: XtalCapValue::HighCap0p,
        regs: Seq::new(NUM_REGS as nat, |k: int| 0u8),
        ..c
    };
    let a = write_run(start, p, 0x05, R82XX_INIT_ARRAY@);
    tv_standard_leaves_a_known_state(a.state, a.port);
    let t = set_tv_standard_run(a.state, a.port);
    sysfreq_sel_leaves_a_known_state(t.state, t.port);
}

proof fn sysfreq_sel_leaves_a_known_state(c: Chip, p: Port)
    requires
        c.regs.len() == NUM_REGS,
        sysfreq_sel_run(c, p).flow is Done,
    ensures
        ({
            let s = sysfreq_sel_run(c, p).state;
            &&& s == (Chip { regs: s.regs, input: 0, ..c })
            &&& s.regs.len() == NUM_REGS
        }),
{
    steps_leave_their_effect(c, p, sysfreq_opening(c.use_predetect));
    let o = chip_steps_run(c, p, sysfreq_opening(c.use_predetect));
    steps_leave_their_effect(Chip { input: 0, ..o.state }, o.port, sysfreq_closing());
}

proof fn tv_standard_leaves_a_known_state(c: Chip, p: Port)
    requires
        c.regs.len() == NUM_REGS,
        set_tv_standard_run(c, p).flow is Done,
    ensures
        ({
            let s = set_tv_standard_run(c, p).state;
            &&& s == (Chip {
                regs: s.regs,
                fil_cal_code: s.fil_cal_code,
                int_freq: 3_570_000,
                bw: 0,
                ..c
            })
            &&& s.regs.len() == NUM_REGS
            &&& s.fil_cal_code < 0x0f
        }),
{
    let start = Chip { regs: with_init_values(c.regs), ..c };
    steps_leave_their_effect(start, p, tv_opening());
    let a = chip_steps_run(start, p, tv_opening());
    let between = Chip { int_freq: 3_570_000, ..a.state };
    calibrate_keeps_the_rest(between, a.port);
    let k1 = calibrate_run(between, a.port);
    calibrate_keeps_the_rest(k1.state, k1.port);
    let k = calibrations_run(between, a.port);
    let code: u8 = if k.state.fil_cal_code == 0x0f {
        0
    } else {
        k.state.fil_cal_code
    };
    steps_leave_their_effect(Chip { fil_cal_code: code, ..k.state }, k.port, tv_closing(code));
    assert(tv_closing_run(k.state, k.port).flow is Done);
}

/// The number of bytes in the longest message: the configured one, but at least two
/// and at most one more than there are registers with a shadow.
pub open spec fn longest_message(max_msg_len: nat) -> nat {
    if max_msg_len < 2 {
        2
    } else if max_msg_len > NUM_REGS + 1 {
        (NUM_REGS + 1) as nat
    } else {
        max_msg_len
    }
}

/// Every message holds the number of its first register and at least one value, and
/// none is longer than the longest.
pub proof fn messages_are_short(
    p: Port,
    i2c_addr: u8,
    max_msg_len: nat,
    reg: int,
    val: Seq<u8>,
    i: int,
)
    requires
        p.sent.len() <= i < messages_run(p, i2c_addr, max_msg_len, reg, val).port.sent.len(),
    ensures
        messages_run(p, i2c_addr, max_msg_len, reg, val).port.sent[i] matches Transfer::Out {
            value,
            index,
            data,
        } && value == i2c_addr && index == write_index(Block::Iic) && 2 <= data.len()
            <= longest_message(max_msg_len),
    decreases val.len(),
{
    let r = messages_run(p, i2c_addr, max_msg_len, reg, val);
    let size = chunk_size(val.len(), max_msg_len, (NUM_REGS + 1) as nat);
    let data = seq![reg as u8] + val.take(size as int);
    let w = i2c_write_run(p, i2c_addr, data);
    let rest = val.skip(size as int);
    if val.len() > 0 {
        messages_resume(
            w.port,
            i2c_addr,
            max_msg_len,
            reg + size,
            rest,
            Seq::empty(),
        );
        assert(r.port.sent[p.sent.len() as int] == w.port.sent.last());
        if i > p.sent.len() {
            messages_are_short(w.port, i2c_addr, max_msg_len, reg + size, rest, i);
        }
    }
}

/// A message is as long as it can be: it takes all the values that remain, or it has the
/// longest length.
pub proof fn messages_are_as_long_as_can_be(remaining: nat, max_msg_len: nat)
    ensures
        ({
            let size = chunk_size(remaining, max_msg_len, (NUM_REGS + 1) as nat);
            &&& size <= remaining
            &&& size + 1 <= longest_message(max_msg_len)
            &&& size == remaining || size + 1 == longest_message(max_msg_len)
        }),
{
}

} // verus!
