//! What the registers of an R82XX tuner hold once it is initialised, or in standby.

use vstd::prelude::*;

use crate::exchange::{Answer, Port};
use crate::tuner::r82xx::{
    calibrate_run, calibration_opening, calibration_pll_run, calibration_result_run,
    calibration_trigger, calibrations_run, r82xx_init_run, set_tv_standard_run, standby_run,
    standby_steps, sysfreq_closing, sysfreq_opening, sysfreq_sel_resumes, sysfreq_sel_run,
    tv_closing, tv_closing_run, tv_opening, with_init_values, Chip, FILT_CAL_LO,
};
use crate::tuner::r82xx::constants::{reversed_bits, XtalCapValue, NUM_REGS, R82XX_INIT_ARRAY};
use crate::tuner::r82xx::effect::{
    init_leaves_a_known_state, steps_effect, steps_leave_their_effect,
};
use crate::tuner::r82xx::front_end::input_is_noted;
use crate::tuner::r82xx::i2c::{chip_steps_resume, chip_steps_run, masked, read_run, write_run};
use crate::tuner::r82xx::meaning::register;
use crate::tuner::r82xx::oscillator::{pll_set, registers_hold_the_frequency, status_read};
use crate::tuner::r82xx::pll::set_pll_resumes;

verus! {

/// The value of a register after power-on.
pub open spec fn power_on(reg: int) -> u8 {
    R82XX_INIT_ARRAY@[reg - 5]
}

/// Whether a register belongs to the PLL.
pub open spec fn of_the_pll(reg: int) -> bool {
    reg == 0x10 || reg == 0x12 || reg == 0x14 || reg == 0x15 || reg == 0x16 || reg == 0x1a
}

/// The registers before and after the filter is calibrated, once or twice.
spec fn before_closing(regs: Seq<u8>) -> bool {
    &&& regs.len() == NUM_REGS
    &&& register(regs, 0x0c) == 0xf0
    &&& register(regs, 0x13) == 0x31
    &&& register(regs, 0x1d) == 0x86
    &&& register(regs, 0x1a) == 0x60 || register(regs, 0x1a) == 0x68
    &&& forall|reg: int|
        5 <= reg < 32 && !of_the_pll(reg) && reg != 0x0c && reg != 0x13 && reg != 0x1d
            ==> #[trigger] register(regs, reg) == power_on(reg)
}

proof fn opening_effect(c: Chip, p: Port)
    requires
        c.regs.len() == NUM_REGS,
        chip_steps_run(Chip { regs: with_init_values(c.regs), ..c }, p, tv_opening()).flow is Done,
    ensures
        before_closing(
            chip_steps_run(
                Chip { regs: with_init_values(c.regs), ..c },
                p,
                tv_opening(),
            ).state.regs,
        ),
{
    let start = Chip { regs: with_init_values(c.regs), ..c };
    steps_leave_their_effect(start, p, tv_opening());
    reveal_with_fuel(steps_effect, 4);
    assert(masked(0xf5, 0x00, 0x0f) == 0xf0 && masked(0x00, 49, 0x3f) == 0x31 && masked(
        0xae,
        0x00,
        0x38,
    ) == 0x86) by (bit_vector);
}

proof fn calibration_effect(c: Chip, p: Port)
    requires
        before_closing(c.regs),
        calibrate_run(c, p).flow is Done,
    ensures
        before_closing(calibrate_run(c, p).state.regs),
        register(calibrate_run(c, p).state.regs, 0x1a) == 0x68,
{
    steps_leave_their_effect(c, p, calibration_opening());
    let a = chip_steps_run(c, p, calibration_opening());
    assert(masked(0x6c, 0x6b, 0x60) == 0x6c && masked(0x6c, 0x10, 0x10) == 0x7c && masked(
        0x7c,
        0x00,
        0x10,
    ) == 0x6c && masked(0x68, 0x04, 0x04) == 0x6c && masked(0x6c, 0x00, 0x04) == 0x68)
        by (bit_vector);
    assert(register(c.regs, 0x0b) == power_on(0x0b));
    assert(register(c.regs, 0x0f) == power_on(0x0f));
    let opened = a.state.regs;
    assert(opened.len() == NUM_REGS && register(opened, 0x0b) == 0x6c && register(opened, 0x0f)
        == 0x6c && forall|reg: int|
        5 <= reg < 35 && reg != 0x0b && reg != 0x0f && reg != 0x10 ==> #[trigger] register(
            opened,
            reg,
        ) == register(c.regs, reg)) by {
        reveal_with_fuel(steps_effect, 4);
    }
    registers_hold_the_frequency(a.state, a.port, FILT_CAL_LO);
    let l = calibration_pll_run(a.state, a.port);
    let tuned = l.state.regs;
    assert(pll_set(opened, tuned));
    assert(register(tuned, 0x1a) == 0x68) by {
        let (x, y): (int, int) = (register(tuned, 0x1a) as int, register(opened, 0x1a) as int);
        assert(x == 16 * (x / 16) + 4 * ((x / 4) % 4) + x % 4);
        assert(register(opened, 0x1a) == register(c.regs, 0x1a));
        assert(x / 16 == 6 && x % 4 == 0 && (x / 4) % 4 == 2);
    }
    assert(register(tuned, 0x0b) == 0x6c);
    assert(register(tuned, 0x0f) == 0x6c);
    steps_leave_their_effect(l.state, l.port, calibration_trigger());
    let t = chip_steps_run(l.state, l.port, calibration_trigger());
    let ended = t.state.regs;
    assert(ended.len() == NUM_REGS && register(ended, 0x0b) == 0x6c && register(ended, 0x0f) == 0x68
        && forall|reg: int|
        5 <= reg < 35 && reg != 0x0b && reg != 0x0f ==> #[trigger] register(ended, reg) == register(
            tuned,
            reg,
        )) by {
        reveal_with_fuel(steps_effect, 4);
    }
    assert(calibrate_run(c, p).state.regs == ended);
    assert forall|reg: int| 5 <= reg < 32 && !of_the_pll(reg) implies #[trigger] register(ended, reg)
        == register(c.regs, reg) by {
        if reg != 0x0b && reg != 0x0f {
            assert(register(ended, reg) == register(tuned, reg));
            assert(register(tuned, reg) == register(opened, reg));
            assert(register(opened, reg) == register(c.regs, reg));
        }
    }
}

/// What the registers hold once the tuner is set up for television, with the calibration
/// code `code`: filter 6 MHz wide, no image rejection, no loop through.
spec fn standard_is_set(regs: Seq<u8>, code: int) -> bool {
    &&& regs.len() == NUM_REGS
    &&& register(regs, 0x05) == 0x03
    &&& register(regs, 0x06) == 0x12
    &&& register(regs, 0x07) == 0x75
    &&& register(regs, 0x0a) == 0xd0 + code
    &&& register(regs, 0x0b) == 0x6b
    &&& register(regs, 0x0f) == 0x68
    &&& register(regs, 0x19) == 0xec
    &&& register(regs, 0x1e) == 0x6a
    &&& register(regs, 0x1f) == 0x40
    &&& register(regs, 0x0c) == 0xf0
    &&& register(regs, 0x13) == 0x31
    &&& register(regs, 0x1d) == 0x86
    &&& register(regs, 0x1a) == 0x68
    &&& register(regs, 0x08) == 0xc0
    &&& register(regs, 0x09) == 0x40
    &&& register(regs, 0x11) == 0x83
    &&& register(regs, 0x17) == 0x30
    &&& register(regs, 0x18) == 0x48
    &&& register(regs, 0x1b) == 0x00
    &&& register(regs, 0x1c) == 0x54
}

proof fn closing_effect(c: Chip, p: Port)
    requires
        before_closing(c.regs),
        register(c.regs, 0x1a) == 0x68,
        c.fil_cal_code <= 0x0f,
        tv_closing_run(c, p).flow is Done,
    ensures
        ({
            let s = tv_closing_run(c, p).state;
            &&& s.fil_cal_code == (if c.fil_cal_code == 0x0f {
                0
            } else {
                c.fil_cal_code
            })
            &&& standard_is_set(s.regs, s.fil_cal_code as int)
        }),
{
    let code: u8 = if c.fil_cal_code == 0x0f {
        0
    } else {
        c.fil_cal_code
    };
    let kept = Chip { fil_cal_code: code, ..c };
    steps_leave_their_effect(kept, p, tv_closing(code));
    let z = chip_steps_run(kept, p, tv_closing(code));
    assert(masked(0xd6, 0x10 | code, 0x1f) == 0xd0 + code) by (bit_vector)
        requires
            code < 16,
    ;
    assert(masked(0x6c, 0x6b, 0xef) == 0x6b && masked(0x75, 0x00, 0x80) == 0x75 && masked(
        0x32,
        0x10,
        0x30,
    ) == 0x12 && masked(0x4a, 0x60, 0x60) == 0x6a && masked(0x83, 0x01, 0x80) == 0x03 && masked(
        0xc0,
        0x00,
        0x80,
    ) == 0x40 && masked(0x68, 0x00, 0x80) == 0x68 && masked(0xcc, 0x60, 0x60) == 0xec)
        by (bit_vector);
    assert forall|reg: int|
        5 <= reg < 32 && !of_the_pll(reg) && reg != 0x0c && reg != 0x13 && reg
            != 0x1d implies #[trigger] c.regs[reg - 5] == power_on(reg) by {
        assert(register(c.regs, reg) == power_on(reg));
    }
    reveal_with_fuel(steps_effect, 10);
}

/// What the registers hold once the tuner is initialised, with the calibration code `code`:
/// LNA and mixer on their own, the first input, the 6 MHz filter, the detector thresholds
/// and the currents.
pub open spec fn is_set_up(regs: Seq<u8>, code: int) -> bool {
    &&& regs.len() == NUM_REGS
    &&& register(regs, 0x05) == 0x03
    &&& register(regs, 0x06) == 0x12
    &&& register(regs, 0x07) == 0x75
    &&& register(regs, 0x08) == 0xc0
    &&& register(regs, 0x09) == 0x40
    &&& register(regs, 0x0a) == 0xd0 + code
    &&& register(regs, 0x0b) == 0x6b
    &&& register(regs, 0x0c) == 0xf0
    &&& register(regs, 0x0d) == 0x53
    &&& register(regs, 0x0e) == 0x75
    &&& register(regs, 0x0f) == 0x68
    &&& register(regs, 0x11) == 0xbb
    &&& register(regs, 0x13) == 0x31
    &&& register(regs, 0x17) == 0x30
    &&& register(regs, 0x18) == 0x48
    &&& register(regs, 0x19) == 0xec
    &&& register(regs, 0x1a) == 0x68
    &&& register(regs, 0x1b) == 0x00
    &&& register(regs, 0x1c) == 0x24
    &&& register(regs, 0x1d) == 0xdd
    &&& register(regs, 0x1e) == 0x6e
    &&& register(regs, 0x1f) == 0x40
}

proof fn sysfreq_effect(c: Chip, p: Port, code: u8)
    requires
        code < 16,
        standard_is_set(c.regs, code as int),
        sysfreq_sel_run(c, p).flow is Done,
    ensures
        is_set_up(sysfreq_sel_run(c, p).state.regs, code as int),
        sysfreq_sel_run(c, p).state.fil_cal_code == c.fil_cal_code,
{
    steps_leave_their_effect(c, p, sysfreq_opening(c.use_predetect));
    let a = chip_steps_run(c, p, sysfreq_opening(c.use_predetect));
    let mid = a.state.regs;
    steps_leave_their_effect(Chip { input: 0, ..a.state }, a.port, sysfreq_closing());
    let high: u8 = (0xd0 + code) as u8;
    assert(masked(0x12, 0x40, 0x40) == 0x52 && masked(0x12, 0x00, 0x08) == 0x12 && masked(
        0x52,
        0x00,
        0x08,
    ) == 0x52 && masked(0x12, 0x00, 0x40) == 0x12 && masked(0x52, 0x00, 0x40) == 0x12 && masked(
        0x86,
        0xe5,
        0xc7,
    ) == 0xc5 && masked(0xc5, 0x00, 0x38) == 0xc5 && masked(0xc5, 0x18, 0x38) == 0xdd && masked(
        0x54,
        0x24,
        0xf8,
    ) == 0x24 && masked(0x24, 0x00, 0x04) == 0x20 && masked(0x20, 0x24, 0x04) == 0x24 && masked(
        0x03,
        0x00,
        0x60,
    ) == 0x03 && masked(0x83, 0x38, 0x38) == 0xbb && masked(0x30, 0x30, 0x30) == 0x30 && masked(
        0x68,
        0x30,
        0x30,
    ) == 0x78 && masked(0x78, 0x20, 0x30) == 0x68 && masked(0x6a, 14, 0x1f) == 0x6e) by (bit_vector);
    assert(masked(high, 0x40, 0x60) == high) by (bit_vector)
        requires
            high == 0xd0 + code,
            code < 16,
    ;
    assert(mid.len() == NUM_REGS && (register(mid, 0x06) == 0x12 || register(mid, 0x06) == 0x52)
        && register(mid, 0x1d) == 0xc5 && register(mid, 0x1c) == 0x24 && register(mid, 0x0d) == 0x53
        && register(mid, 0x0e) == 0x75 && forall|reg: int|
        5 <= reg < 35 && reg != 0x06 && reg != 0x1d && reg != 0x1c && reg != 0x0d && reg != 0x0e
            ==> #[trigger] register(mid, reg) == register(c.regs, reg)) by {
        reveal_with_fuel(steps_effect, 6);
    }
    assert(register(mid, 0x05) == 0x03 && register(mid, 0x07) == 0x75 && register(mid, 0x0a) == high
        && register(mid, 0x0b) == 0x6b && register(mid, 0x0f) == 0x68 && register(mid, 0x19) == 0xec
        && register(mid, 0x1e) == 0x6a && register(mid, 0x1f) == 0x40 && register(mid, 0x0c) == 0xf0
        && register(mid, 0x13) == 0x31 && register(mid, 0x1a) == 0x68 && register(mid, 0x08) == 0xc0
        && register(mid, 0x09) == 0x40 && register(mid, 0x11) == 0x83 && register(mid, 0x17) == 0x30
        && register(mid, 0x18) == 0x48 && register(mid, 0x1b) == 0x00);
    reveal_with_fuel(steps_effect, 14);
}

/// The calibration code that an answer to a status read reports: the low four bits of its
/// last byte, which comes with its bits in the opposite order. The code for a failure
/// counts as none.
pub open spec fn code_in(data: Seq<u8>) -> int {
    let b = data[4] as int;
    let code = b / 128 + 2 * ((b / 64) % 2) + 4 * ((b / 32) % 2) + 8 * ((b / 16) % 2);
    if code == 15 {
        0
    } else {
        code
    }
}

proof fn code_bits(raw: u8)
    ensures
        ({
            let b = raw as int;
            (reversed_bits(raw) & 0x0f) as int == b / 128 + 2 * ((b / 64) % 2) + 4 * ((b / 32) % 2)
                + 8 * ((b / 16) % 2)
        }),
        reversed_bits(raw) & 0x0f <= 0x0f,
{
    assert(reversed_bits(raw) & 0x0f == raw / 128 + 2 * ((raw / 64) % 2) + 4 * ((raw / 32) % 2) + 8
        * ((raw / 16) % 2)) by (bit_vector);
    let b = raw as int;
    assert(b / 128 <= 1);
}

/// Whether the transfer at the position `i` read a status with the calibration code `code`.
pub open spec fn reads_code(i2c_addr: u8, port: Port, i: int, code: int) -> bool {
    &&& 0 <= i < port.sent.len()
    &&& port.sent[i] == status_read(i2c_addr)
    &&& port.replies[i] matches Answer::Received(data) && data.len() >= 5 && code_in(data) == code
}

proof fn code_is_read(c: Chip, p: Port)
    requires
        calibration_result_run(c, p).flow is Done,
        c.regs.len() == NUM_REGS,
    ensures
        ({
            let r = calibration_result_run(c, p);
            let code = if r.state.fil_cal_code == 0x0f {
                0
            } else {
                r.state.fil_cal_code as int
            };
            &&& r.state.fil_cal_code <= 0x0f
            &&& reads_code(c.i2c_addr, r.port, r.port.sent.len() - 1, code)
        }),
{
    let t = chip_steps_run(c, p, calibration_trigger());
    steps_leave_their_effect(c, p, calibration_trigger());
    let f = read_run(t.state, t.port, 0x00, 5);
    let data = f.flow->Done_0;
    let i = f.port.sent.len() - 1;
    let raw = f.port.replies[i]->Received_0;
    assert(f.port.sent[i] == status_read(c.i2c_addr));
    assert(data[4] == reversed_bits(raw[4]));
    code_bits(raw[4]);
}

proof fn calibration_reads_its_code(c: Chip, p: Port)
    requires
        c.regs.len() == NUM_REGS,
        calibrate_run(c, p).flow is Done,
    ensures
        ({
            let r = calibrate_run(c, p);
            let code = if r.state.fil_cal_code == 0x0f {
                0
            } else {
                r.state.fil_cal_code as int
            };
            &&& r.state == (Chip {
                regs: r.state.regs,
                fil_cal_code: r.state.fil_cal_code,
                ..c
            })
            &&& r.state.fil_cal_code <= 0x0f
            &&& reads_code(c.i2c_addr, r.port, r.port.sent.len() - 1, code)
        }),
{
    steps_leave_their_effect(c, p, calibration_opening());
    let a = chip_steps_run(c, p, calibration_opening());
    registers_hold_the_frequency(a.state, a.port, FILT_CAL_LO);
    let l = calibration_pll_run(a.state, a.port);
    steps_leave_their_effect(l.state, l.port, calibration_trigger());
    code_is_read(l.state, l.port);
}

proof fn standard_effect(c: Chip, p: Port)
    requires
        c.regs.len() == NUM_REGS,
        set_tv_standard_run(c, p).flow is Done,
    ensures
        ({
            let r = set_tv_standard_run(c, p);
            &&& standard_is_set(r.state.regs, r.state.fil_cal_code as int)
            &&& r.state.fil_cal_code < 16
            &&& exists|i: int|
                #[trigger] reads_code(c.i2c_addr, r.port, i, r.state.fil_cal_code as int)
        }),
{
    let r = set_tv_standard_run(c, p);
    let start = Chip { regs: with_init_values(c.regs), ..c };
    let a = chip_steps_run(start, p, tv_opening());
    opening_effect(c, p);
    steps_leave_their_effect(start, p, tv_opening());
    let between = Chip { int_freq: 3_570_000, ..a.state };
    let k1 = calibrate_run(between, a.port);
    calibration_effect(between, a.port);
    calibration_reads_its_code(between, a.port);
    let k = calibrations_run(between, a.port);
    if k != k1 {
        calibration_effect(k1.state, k1.port);
        calibration_reads_its_code(k1.state, k1.port);
    }
    closing_effect(k.state, k.port);
    let i = k.port.sent.len() - 1;
    let code: u8 = if k.state.fil_cal_code == 0x0f {
        0
    } else {
        k.state.fil_cal_code
    };
    chip_steps_resume(
        Chip { fil_cal_code: code, ..k.state },
        k.port,
        tv_closing(code),
        Seq::empty(),
    );
    assert(r.port.sent[i] == k.port.sent[i]);
    assert(reads_code(c.i2c_addr, r.port, i, r.state.fil_cal_code as int));
}

/// An initialisation that finished leaves the registers set up, with a calibration code
/// that the tuner reported, or none; and the driver's note of the input agrees with them.
pub proof fn tuner_is_set_up(c: Chip, p: Port)
    requires
        r82xx_init_run(c, p).flow is Done,
    ensures
        ({
            let r = r82xx_init_run(c, p);
            &&& is_set_up(r.state.regs, r.state.fil_cal_code as int)
            &&& input_is_noted(r.state)
            &&& exists|i: int|
                #[trigger] reads_code(c.i2c_addr, r.port, i, r.state.fil_cal_code as int)
        }),
{
    let r = r82xx_init_run(c, p);
    init_leaves_a_known_state(c, p);
    let start = Chip {
        xtal_cap_sel: XtalCapValue::HighCap0p,
        regs: Seq::new(NUM_REGS as nat, |k: int| 0u8),
        ..c
    };
    let a = write_run(start, p, 0x05, R82XX_INIT_ARRAY@);
    let t = set_tv_standard_run(a.state, a.port);
    standard_effect(a.state, a.port);
    let i = choose|i: int|
        #[trigger] reads_code(c.i2c_addr, t.port, i, t.state.fil_cal_code as int);
    sysfreq_effect(t.state, t.port, t.state.fil_cal_code);
    sysfreq_sel_resumes(t.state, t.port, Seq::empty());
    assert(r.port.sent[i] == t.port.sent[i]);
    assert(reads_code(c.i2c_addr, r.port, i, r.state.fil_cal_code as int));
}

/// Standby, once it went through, leaves the stages of the tuner off.
pub proof fn standby_switches_the_stages_off(c: Chip, p: Port)
    requires
        c.regs.len() == NUM_REGS,
        c.init_done,
        standby_run(c, p).flow is Done,
    ensures
        ({
            let s = standby_run(c, p).state;
            &&& s == (Chip { regs: s.regs, ..c })
            &&& register(s.regs, 0x05) == 0xa0
            &&& register(s.regs, 0x06) == 0xb1
            &&& register(s.regs, 0x07) == 0x3a
            &&& register(s.regs, 0x08) == 0x40
            &&& register(s.regs, 0x09) == 0xc0
            &&& register(s.regs, 0x0a) == 0x36
            &&& register(s.regs, 0x0c) == 0x35
            &&& register(s.regs, 0x0f) == 0x68
            &&& register(s.regs, 0x11) == 0x03
            &&& register(s.regs, 0x17) == 0xf4
            &&& register(s.regs, 0x19) == 0x0c
        }),
{
    steps_leave_their_effect(c, p, standby_steps());
    reveal_with_fuel(steps_effect, 12);
}

/// The filter is calibrated once, and once more exactly where the first code is none to
/// keep: zero, or the one for a failure, fifteen.
pub proof fn calibration_is_repeated_once(c: Chip, p: Port)
    requires
        c.regs.len() == NUM_REGS,
        calibrations_run(c, p).flow is Done,
    ensures
        ({
            let once = calibrate_run(c, p);
            let r = calibrations_run(c, p);
            let code = once.state.fil_cal_code;
            &&& 1 <= code <= 14 ==> r == once
            &&& code == 0 || code == 15 ==> r.port.sent.len() > once.port.sent.len() && r
                == calibrate_run(once.state, once.port)
        }),
{
    let once = calibrate_run(c, p);
    calibration_reads_its_code(c, p);
    if once.state.fil_cal_code == 0 || once.state.fil_cal_code == 15 {
        calibrate_steps_on(once.state, once.port);
    }
}

proof fn calibrate_steps_on(c: Chip, p: Port)
    requires
        calibrate_run(c, p).flow is Done,
    ensures
        calibrate_run(c, p).port.sent.len() > p.sent.len(),
{
    let a = chip_steps_run(c, p, calibration_opening());
    chip_steps_resume(c, p, calibration_opening(), Seq::empty());
    let l = calibration_pll_run(a.state, a.port);
    set_pll_resumes(a.state, a.port, FILT_CAL_LO, Seq::empty());
    let t = chip_steps_run(l.state, l.port, calibration_trigger());
    chip_steps_resume(l.state, l.port, calibration_trigger(), Seq::empty());
    assert(calibration_result_run(l.state, l.port).flow is Done);
}

/// Setting the TV standard keeps the number of registers that have a shadow.
pub proof fn standard_keeps_the_shadow(c: Chip, p: Port)
    requires
        c.regs.len() == NUM_REGS,
        set_tv_standard_run(c, p).flow is Done,
    ensures
        set_tv_standard_run(c, p).state.regs.len() == NUM_REGS,
{
    standard_effect(c, p);
}

} // verus!
