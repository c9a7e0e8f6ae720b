//! What the values in the tuner's registers mean.
//!
//! These functions read the registers as the tuner does, by number and bit, and the
//! proofs say of each operation what the registers stand for once it went through: the
//! gain, the filter, the local oscillator, the input. They share no formula with the
//! code that computes the values.

use vstd::prelude::*;

use crate::exchange::{Flow, Port};
use crate::tuner::r82xx::{every_bandwidth_has_a_filter, if_lpf_idx, Chip};
use crate::tuner::r82xx::bandwidth::{
    band_plan, band_steps, filters_pass_the_bandwidth, low_pass_share, r82xx_set_bw_run,
};
use crate::tuner::r82xx::constants::{
    IF_LOW_PASS_BW_TABLE, NUM_REGS, R82XX_LNA_GAIN_STEPS, R82XX_MIXER_GAIN_STEPS,
};
use crate::tuner::r82xx::effect::{steps_effect, steps_leave_their_effect};
use crate::tuner::r82xx::gain::{
    auto_off_steps, every_gain_has_a_rung, gain_is_exceeded_by_less_than_4_db, gain_mode_steps,
    gain_rung, gain_steps, r82xx_set_gain_mode_run, r82xx_set_gain_run, rung, rungs_rise,
    GAIN_RUNGS,
};
use crate::tuner::r82xx::i2c::{chip_steps_run, masked, read_run};

verus! {

/// The value of the register `reg` among the registers from 0x05 on.
pub open spec fn register(regs: Seq<u8>, reg: int) -> u8 {
    regs[reg - 5]
}

/// The sum of the first `n` steps after the first entry of a table.
pub open spec fn steps_sum(table: Seq<i32>, n: int) -> int
    decreases n,
{
    if n <= 0 {
        0
    } else {
        steps_sum(table, n - 1) + table[n]
    }
}

/// The gain in tenths of dB that the registers 0x05 and 0x07 stand for: the LNA steps up
/// to the index in the low four bits of the one, the mixer steps up to the index in the
/// low four bits of the other.
pub open spec fn gain_in(regs: Seq<u8>) -> int {
    steps_sum(R82XX_LNA_GAIN_STEPS@, register(regs, 0x05) as int % 16) + steps_sum(
        R82XX_MIXER_GAIN_STEPS@,
        register(regs, 0x07) as int % 16,
    )
}

proof fn masked_nibble(old: u8, val: u8)
    requires
        val < 16,
    ensures
        masked(old, val, 0x0f) % 16 == val,
        masked(old, val, 0x0f) / 16 == old / 16,
{
    assert(((old & !0x0fu8) | (val & 0x0f)) % 16 == val && ((old & !0x0fu8) | (val & 0x0f)) / 16
        == old / 16) by (bit_vector)
        requires
            val < 16,
    ;
}

proof fn masked_bit_4(old: u8, val: u8)
    requires
        val == 0x10 || val == 0x00,
    ensures
        (masked(old, val, 0x10) / 16) % 2 == (if val == 0x10 {
            1int
        } else {
            0int
        }),
        masked(old, val, 0x10) % 16 == old % 16,
        masked(old, val, 0x10) / 32 == old / 32,
{
    assert((((old & !0x10u8) | (val & 0x10)) / 16) % 2 == (val / 16) % 2 && ((old & !0x10u8) | (val
        & 0x10)) % 16 == old % 16 && ((old & !0x10u8) | (val & 0x10)) / 32 == old / 32)
        by (bit_vector);
}

proof fn rung_is_a_sum(k: int)
    requires
        0 <= k <= GAIN_RUNGS,
    ensures
        rung(k) == steps_sum(R82XX_LNA_GAIN_STEPS@, (k + 1) / 2) + steps_sum(
            R82XX_MIXER_GAIN_STEPS@,
            k / 2,
        ),
    decreases k,
{
    if k > 0 {
        rung_is_a_sum(k - 1);
    }
}

/// The gains in tenths of dB that can be set.
pub open spec fn settable_gains() -> Seq<int> {
    seq![
        0, 9, 14, 27, 37, 77, 87, 125, 144, 157, 166, 197, 207, 229, 254, 280, 297, 328, 338, 364,
        372, 386, 402, 421, 434, 439, 445, 480, 483, 496,
    ]
}

proof fn rungs_are_the_settable_gains()
    ensures
        settable_gains().len() == 30,
        forall|k: int| 0 <= k < 30 ==> #[trigger] rung(k) == settable_gains()[k],
{
    assert(rung(0) == 0);
    assert(rung(1) == 9);
    assert(rung(2) == 14);
    assert(rung(3) == 27);
    assert(rung(4) == 37);
    assert(rung(5) == 77);
    assert(rung(6) == 87);
    assert(rung(7) == 125);
    assert(rung(8) == 144);
    assert(rung(9) == 157);
    assert(rung(10) == 166);
    assert(rung(11) == 197);
    assert(rung(12) == 207);
    assert(rung(13) == 229);
    assert(rung(14) == 254);
    assert(rung(15) == 280);
    assert(rung(16) == 297);
    assert(rung(17) == 328);
    assert(rung(18) == 338);
    assert(rung(19) == 364);
    assert(rung(20) == 372);
    assert(rung(21) == 386);
    assert(rung(22) == 402);
    assert(rung(23) == 421);
    assert(rung(24) == 434);
    assert(rung(25) == 439);
    assert(rung(26) == 445);
    assert(rung(27) == 480);
    assert(rung(28) == 483);
    assert(rung(29) == 496);
}

proof fn gain_registers(c: Chip, p: Port, gain: i32)
    requires
        c.regs.len() == NUM_REGS,
        r82xx_set_gain_run(c, p, gain).flow is Done,
    ensures
        ({
            let s = r82xx_set_gain_run(c, p, gain).state;
            let k = gain_rung(gain as int);
            &&& 0 <= k <= GAIN_RUNGS
            &&& s.regs.len() == NUM_REGS
            &&& register(s.regs, 0x05) == masked(
                masked(register(c.regs, 0x05), 0x10, 0x10),
                ((k + 1) / 2) as u8,
                0x0f,
            )
            &&& register(s.regs, 0x07) == masked(
                masked(register(c.regs, 0x07), 0x00, 0x10),
                (k / 2) as u8,
                0x0f,
            )
            &&& register(s.regs, 0x0c) == masked(register(c.regs, 0x0c), 0x08, 0x9f)
            &&& s == (Chip { regs: s.regs, ..c })
            &&& forall|reg: int|
                5 <= reg < 35 && reg != 0x05 && reg != 0x07 && reg != 0x0c ==> #[trigger] register(
                    s.regs,
                    reg,
                ) == register(c.regs, reg)
        }),
{
    every_gain_has_a_rung(gain as int);
    let k = gain_rung(gain as int);
    steps_leave_their_effect(c, p, auto_off_steps());
    let a = chip_steps_run(c, p, auto_off_steps());
    let f = read_run(a.state, a.port, 0x00, 4);
    steps_leave_their_effect(a.state, f.port, gain_steps(k));
    reveal_with_fuel(steps_effect, 4);
}

/// The gain that the registers stand for is the one asked for: reached, and exceeded by
/// less than 4 dB, for every gain from 0.1 to 49.6 dB; none for less, and the highest
/// for more.
pub proof fn registers_hold_the_gain(c: Chip, p: Port, gain: i32)
    requires
        c.regs.len() == NUM_REGS,
        r82xx_set_gain_run(c, p, gain).flow is Done,
    ensures
        ({
            let held = gain_in(r82xx_set_gain_run(c, p, gain).state.regs);
            &&& 1 <= gain <= 496 ==> gain <= held < gain + 40
            &&& gain <= 0 ==> held == 0
            &&& gain > 496 ==> held == 496
        }),
{
    gain_registers(c, p, gain);
    every_gain_has_a_rung(gain as int);
    let k = gain_rung(gain as int);
    rung_is_a_sum(k);
    masked_nibble(masked(register(c.regs, 0x05), 0x10, 0x10), ((k + 1) / 2) as u8);
    masked_nibble(masked(register(c.regs, 0x07), 0x00, 0x10), (k / 2) as u8);
    rungs_are_the_settable_gains();
    assert(rung(29) == 496);
    if 1 <= gain <= 496 {
        gain_is_exceeded_by_less_than_4_db(gain as int);
    } else if gain <= 0 {
        assert(rung(0) == 0);
        if k > 0 {
            assert(rung(0) < gain);
        }
    } else if k < GAIN_RUNGS {
        rungs_rise(k, GAIN_RUNGS as int);
    }
}

/// The gain that the registers stand for is one of those that can be set, and none of
/// them lies between the gain asked for and it.
pub proof fn registers_hold_the_least_gain_that_reaches(c: Chip, p: Port, gain: i32, i: int)
    requires
        c.regs.len() == NUM_REGS,
        r82xx_set_gain_run(c, p, gain).flow is Done,
        0 <= i < 30,
    ensures
        ({
            let held = gain_in(r82xx_set_gain_run(c, p, gain).state.regs);
            &&& settable_gains().contains(held)
            &&& settable_gains()[i] >= gain ==> gain <= held <= settable_gains()[i]
        }),
{
    gain_registers(c, p, gain);
    every_gain_has_a_rung(gain as int);
    let k = gain_rung(gain as int);
    rung_is_a_sum(k);
    masked_nibble(masked(register(c.regs, 0x05), 0x10, 0x10), ((k + 1) / 2) as u8);
    masked_nibble(masked(register(c.regs, 0x07), 0x00, 0x10), (k / 2) as u8);
    rungs_are_the_settable_gains();
    assert(settable_gains()[k] == rung(k));
    assert(rung(i) == settable_gains()[i]);
    if i < k {
        assert(rung(i) < gain);
    } else if k < i {
        rungs_rise(k, i);
    }
}

/// Setting a gain switches the automatic gain of LNA and mixer off, fixes the VGA at the
/// code 8, and leaves every other register alone.
pub proof fn gain_is_manual(c: Chip, p: Port, gain: i32)
    requires
        c.regs.len() == NUM_REGS,
        r82xx_set_gain_run(c, p, gain).flow is Done,
    ensures
        ({
            let regs = r82xx_set_gain_run(c, p, gain).state.regs;
            &&& is_manual(regs)
            &&& vga_code(regs) == 8
            &&& register(regs, 0x05) / 32 == register(c.regs, 0x05) / 32
            &&& register(regs, 0x07) / 32 == register(c.regs, 0x07) / 32
            &&& forall|reg: int|
                5 <= reg < 35 && reg != 0x05 && reg != 0x07 && reg != 0x0c ==> #[trigger] register(
                    regs,
                    reg,
                ) == register(c.regs, reg)
        }),
{
    gain_registers(c, p, gain);
    let k = gain_rung(gain as int);
    let r5 = register(c.regs, 0x05);
    let r7 = register(c.regs, 0x07);
    masked_bit_4(r5, 0x10);
    masked_bit_4(r7, 0x00);
    masked_nibble(masked(r5, 0x10, 0x10), ((k + 1) / 2) as u8);
    masked_nibble(masked(r7, 0x00, 0x10), (k / 2) as u8);
    vga_of(register(c.regs, 0x0c), 0x08);
}

/// Whether LNA and mixer are set by hand: bit 4 of register 0x05 set, bit 4 of register
/// 0x07 clear.
pub open spec fn is_manual(regs: Seq<u8>) -> bool {
    &&& (register(regs, 0x05) / 16) % 2 == 1
    &&& (register(regs, 0x07) / 16) % 2 == 0
}

/// Whether LNA and mixer set themselves.
pub open spec fn is_automatic(regs: Seq<u8>) -> bool {
    &&& (register(regs, 0x05) / 16) % 2 == 0
    &&& (register(regs, 0x07) / 16) % 2 == 1
}

/// The gain code of the VGA, in the low four bits of register 0x0c, where its bits 4 and
/// 7 are clear.
pub open spec fn vga_code(regs: Seq<u8>) -> int {
    let r = register(regs, 0x0c);
    if (r / 16) % 2 == 0 && r / 128 == 0 {
        r as int % 16
    } else {
        -1
    }
}

proof fn vga_of(old: u8, val: u8)
    requires
        val < 16,
    ensures
        masked(old, val, 0x9f) as int % 16 == val,
        (masked(old, val, 0x9f) / 16) % 2 == 0,
        masked(old, val, 0x9f) / 128 == 0,
{
    assert(((old & !0x9fu8) | (val & 0x9f)) % 16 == val && (((old & !0x9fu8) | (val & 0x9f)) / 16)
        % 2 == 0 && ((old & !0x9fu8) | (val & 0x9f)) / 128 == 0) by (bit_vector)
        requires
            val < 16,
    ;
}

/// Switching the gain mode switches both LNA and mixer, to the hand or to themselves, and
/// sets the VGA to the code 8 or 11; the steps of LNA and mixer stay, and so does every
/// other register.
pub proof fn gain_mode_switches_both(c: Chip, p: Port, manual: bool)
    requires
        c.regs.len() == NUM_REGS,
        r82xx_set_gain_mode_run(c, p, manual).flow is Done,
    ensures
        ({
            let regs = r82xx_set_gain_mode_run(c, p, manual).state.regs;
            &&& manual ==> is_manual(regs) && vga_code(regs) == 8
            &&& !manual ==> is_automatic(regs) && vga_code(regs) == 11
            &&& gain_in(regs) == gain_in(c.regs)
            &&& forall|reg: int|
                5 <= reg < 35 && reg != 0x05 && reg != 0x07 && reg != 0x0c ==> #[trigger] register(
                    regs,
                    reg,
                ) == register(c.regs, reg)
        }),
{
    steps_leave_their_effect(c, p, gain_mode_steps(manual));
    reveal_with_fuel(steps_effect, 4);
    masked_bit_4(register(c.regs, 0x05), 0x10);
    masked_bit_4(register(c.regs, 0x07), 0x00);
    masked_bit_4(register(c.regs, 0x05), 0x00);
    masked_bit_4(register(c.regs, 0x07), 0x10);
    vga_of(register(c.regs, 0x0c), 0x08);
    vga_of(register(c.regs, 0x0c), 0x0b);
}

/// The width that the second high-pass filter adds, where bit 5 of register 0x0b leaves it
/// on.
pub open spec fn second_share_in(reg_0b: u8) -> int {
    if (reg_0b / 32) % 2 == 0 {
        380_000
    } else {
        0
    }
}

/// The width that the first high-pass filter adds, where bit 6 of register 0x0b leaves it
/// on.
pub open spec fn first_share_in(reg_0b: u8) -> int {
    if (reg_0b / 64) % 2 == 0 {
        350_000
    } else {
        0
    }
}

/// The number of the low-pass filter that register 0x0b selects.
pub open spec fn low_pass_in(reg_0b: u8) -> int {
    15 - reg_0b as int % 16
}

/// The width in Hz of the low-pass filters, widest first.
pub open spec fn low_pass_widths() -> Seq<int> {
    seq![
        1_700_000, 1_600_000, 1_550_000, 1_450_000, 1_200_000, 900_000, 700_000, 550_000, 450_000,
        350_000,
    ]
}

/// The width in Hz that the high-pass filters add.
pub open spec fn high_pass_in(reg_0b: u8) -> int {
    first_share_in(reg_0b) + second_share_in(reg_0b)
}

/// The width in Hz that the filters of register 0x0b pass, where bit 4 of register 0x0a
/// is clear.
pub open spec fn width_in(reg_0b: u8) -> int {
    high_pass_in(reg_0b) + low_pass_widths()[low_pass_in(reg_0b)]
}

proof fn narrow_code_bits(no_second: u8, no_first: u8, low_pass: u8)
    requires
        no_second == 0x00 || no_second == 0x20,
        no_first == 0x00 || no_first == 0x40,
        low_pass < 16,
    ensures
        ({
            let r = 0x80u8 | no_second | no_first | low_pass;
            &&& r as int % 16 == low_pass
            &&& (r / 16) % 2 == 0
            &&& ((r / 32) % 2 == 1) == (no_second == 0x20)
            &&& ((r / 64) % 2 == 1) == (no_first == 0x40)
            &&& r / 128 == 1
        }),
{
    let r = 0x80u8 | no_second | no_first | low_pass;
    assert(r % 16 == low_pass && (r / 16) % 2 == 0 && ((r / 32) % 2 == 1) == (no_second == 0x20)
        && ((r / 64) % 2 == 1) == (no_first == 0x40) && r / 128 == 1) by (bit_vector)
        requires
            r == 0x80u8 | no_second | no_first | low_pass,
            no_second == 0x00 || no_second == 0x20,
            no_first == 0x00 || no_first == 0x40,
            low_pass < 16,
    ;
}

proof fn narrow_plan(bw: int)
    requires
        bw <= 2_430_000,
    ensures
        ({
            let plan = band_plan(bw);
            let r = plan.reg_0b;
            &&& plan.reg_0a == 0x00
            &&& (r / 16) % 2 == 0
            &&& r / 128 == 1
            &&& 0 <= low_pass_in(r) < 10
            &&& width_in(r) >= bw
            &&& low_pass_in(r) < 9 ==> high_pass_in(r) + low_pass_widths()[low_pass_in(r) + 1] < bw
            &&& plan.int_freq == 2_300_000 + high_pass_in(r) - width_in(r) / 2
            &&& (first_share_in(r) > 0) == (1_700_000 < bw <= 2_050_000 || 2_080_000 < bw)
            &&& (second_share_in(r) > 0) == (bw > 2_050_000)
        }),
{
    every_bandwidth_has_a_filter(low_pass_share(bw));
    filters_pass_the_bandwidth(bw);
    let i = if_lpf_idx(low_pass_share(bw));
    let no_second: u8 = if bw > 2_050_000 {
        0x00
    } else {
        0x20
    };
    let no_first: u8 = if 1_700_000 < bw <= 2_050_000 || 2_080_000 < bw {
        0x00
    } else {
        0x40
    };
    narrow_code_bits(no_second, no_first, (15 - i) as u8);
    assert(low_pass_widths()[i] == IF_LOW_PASS_BW_TABLE@[i]);
    if i < 9 {
        assert(low_pass_widths()[i + 1] == IF_LOW_PASS_BW_TABLE@[i + 1]);
    }
}

proof fn band_registers(c: Chip, p: Port, bw: u32)
    requires
        c.regs.len() == NUM_REGS,
        bw < 0x8000_0000,
        r82xx_set_bw_run(c, p, bw).flow is Done,
    ensures
        ({
            let s = r82xx_set_bw_run(c, p, bw).state;
            let plan = band_plan(bw as int);
            &&& s.regs.len() == NUM_REGS
            &&& s == (Chip { regs: s.regs, int_freq: plan.int_freq, ..c })
            &&& r82xx_set_bw_run(c, p, bw).flow == Flow::Done(plan.int_freq)
            &&& register(s.regs, 0x0a) == masked(register(c.regs, 0x0a), plan.reg_0a, 0x10)
            &&& register(s.regs, 0x0b) == masked(register(c.regs, 0x0b), plan.reg_0b, 0xef)
            &&& forall|reg: int|
                5 <= reg < 35 && reg != 0x0a && reg != 0x0b ==> #[trigger] register(s.regs, reg)
                    == register(c.regs, reg)
        }),
{
    assert(bw as i32 == bw) by (bit_vector)
        requires
            bw < 0x8000_0000,
    ;
    let plan = band_plan(bw as int);
    steps_leave_their_effect(Chip { int_freq: plan.int_freq, ..c }, p, band_steps(plan));
    reveal_with_fuel(steps_effect, 3);
}

proof fn band_bits(old: u8, val: u8)
    requires
        (val / 16) % 2 == 0,
    ensures
        ({
            let r = masked(old, val, 0xef);
            &&& r as int % 16 == val as int % 16
            &&& r / 32 == val / 32
        }),
{
    assert(((old & !0xefu8) | (val & 0xef)) % 16 == val % 16 && ((old & !0xefu8) | (val & 0xef)) / 32
        == val / 32) by (bit_vector);
}

/// Up to 2.43 MHz the filters that the registers select pass the bandwidth asked for, with
/// the narrowest low-pass filter that does, and with no high-pass filter more than the
/// widest of them leaves to do; and the intermediate frequency, which is
/// returned too, puts the passed band where those filters have it.
pub proof fn registers_select_the_narrowest_filter(c: Chip, p: Port, bw: u32)
    requires
        c.regs.len() == NUM_REGS,
        bw <= 2_430_000,
        r82xx_set_bw_run(c, p, bw).flow is Done,
    ensures
        ({
            let s = r82xx_set_bw_run(c, p, bw).state;
            let r = register(s.regs, 0x0b);
            let i = low_pass_in(r);
            &&& (register(s.regs, 0x0a) / 16) % 2 == 0
            &&& 0 <= i < 10
            &&& width_in(r) >= bw
            &&& i < 9 ==> high_pass_in(r) + low_pass_widths()[i + 1] < bw
            &&& (first_share_in(r) > 0) == (1_700_000 < bw <= 2_050_000 || 2_080_000 < bw)
            &&& (second_share_in(r) > 0) == (bw > 2_050_000)
            &&& s.int_freq == 2_300_000 + high_pass_in(r) - width_in(r) / 2
            &&& r82xx_set_bw_run(c, p, bw).flow == Flow::Done(s.int_freq)
        }),
{
    band_registers(c, p, bw);
    narrow_plan(bw as int);
    let plan = band_plan(bw as int);
    band_bits(register(c.regs, 0x0b), plan.reg_0b);
    masked_bit_4(register(c.regs, 0x0a), 0x00);
    let r = masked(register(c.regs, 0x0b), plan.reg_0b, 0xef);
    assert((r / 32) % 2 == (plan.reg_0b / 32) % 2);
    assert(r / 64 == plan.reg_0b / 64);
}

/// Above 2.43 MHz the wide filter is on, with the code and the intermediate frequency of
/// the least television channel that holds the bandwidth: 6, 7 or 8 MHz.
pub proof fn registers_select_the_wide_filter(c: Chip, p: Port, bw: u32)
    requires
        c.regs.len() == NUM_REGS,
        2_430_000 < bw < 0x8000_0000,
        r82xx_set_bw_run(c, p, bw).flow is Done,
    ensures
        ({
            let s = r82xx_set_bw_run(c, p, bw).state;
            let r = register(s.regs, 0x0b);
            &&& (register(s.regs, 0x0a) / 16) % 2 == 1
            &&& bw <= 6_000_000 ==> r as int % 16 == 11 && r / 32 == 3 && s.int_freq == 3_570_000
            &&& 6_000_000 < bw <= 7_000_000 ==> r as int % 16 == 10 && r / 32 == 1 && s.int_freq
                == 4_570_000
            &&& 7_000_000 < bw ==> r as int % 16 == 11 && r / 32 == 0 && s.int_freq == 4_570_000
            &&& r82xx_set_bw_run(c, p, bw).flow == Flow::Done(s.int_freq)
        }),
{
    band_registers(c, p, bw);
    band_bits(register(c.regs, 0x0b), band_plan(bw as int).reg_0b);
    masked_bit_4(register(c.regs, 0x0a), 0x10);
}

/// Whether a tuner passes the bandwidth `bw`, with the filters in its registers 0x0a and
/// 0x0b and the intermediate frequency that belongs to them.
pub open spec fn passes_band(c: Chip, bw: int) -> bool {
    let r = register(c.regs, 0x0b);
    let i = low_pass_in(r);
    if bw <= 2_430_000 {
        &&& (register(c.regs, 0x0a) / 16) % 2 == 0
        &&& 0 <= i < 10
        &&& width_in(r) >= bw
        &&& i < 9 ==> high_pass_in(r) + low_pass_widths()[i + 1] < bw
        &&& c.int_freq == 2_300_000 + high_pass_in(r) - width_in(r) / 2
    } else {
        &&& (register(c.regs, 0x0a) / 16) % 2 == 1
        &&& bw <= 6_000_000 ==> r as int % 16 == 11 && r / 32 == 3 && c.int_freq == 3_570_000
        &&& 6_000_000 < bw <= 7_000_000 ==> r as int % 16 == 10 && r / 32 == 1 && c.int_freq
            == 4_570_000
        &&& 7_000_000 < bw ==> r as int % 16 == 11 && r / 32 == 0 && c.int_freq == 4_570_000
    }
}

/// Setting the bandwidth, once it went through, makes the tuner pass it, and returns the
/// intermediate frequency that belongs to it.
pub proof fn band_is_passed(c: Chip, p: Port, bw: u32)
    requires
        c.regs.len() == NUM_REGS,
        bw < 0x8000_0000,
        r82xx_set_bw_run(c, p, bw).flow is Done,
    ensures
        ({
            let s = r82xx_set_bw_run(c, p, bw).state;
            &&& passes_band(s, bw as int)
            &&& s == (Chip { regs: s.regs, int_freq: s.int_freq, ..c })
            &&& s.regs.len() == NUM_REGS
            &&& register(s.regs, 0x05) == register(c.regs, 0x05)
            &&& register(s.regs, 0x06) == register(c.regs, 0x06)
            &&& 1_000_000 < s.int_freq < 5_000_000
            &&& r82xx_set_bw_run(c, p, bw).flow == Flow::Done(s.int_freq)
        }),
{
    band_registers(c, p, bw);
    if bw <= 2_430_000 {
        registers_select_the_narrowest_filter(c, p, bw);
    } else {
        registers_select_the_wide_filter(c, p, bw);
    }
}

/// Setting the bandwidth leaves every other register alone, and the other bits of its two.
pub proof fn bandwidth_leaves_the_rest(c: Chip, p: Port, bw: u32, reg: int)
    requires
        c.regs.len() == NUM_REGS,
        bw < 0x8000_0000,
        r82xx_set_bw_run(c, p, bw).flow is Done,
        5 <= reg < 35,
    ensures
        ({
            let s = r82xx_set_bw_run(c, p, bw).state;
            let (was, is): (u8, u8) = (register(c.regs, reg), register(s.regs, reg));
            &&& s == (Chip { regs: s.regs, int_freq: s.int_freq, ..c })
            &&& reg != 0x0a && reg != 0x0b ==> is == was
            &&& reg == 0x0a ==> is as int % 16 == was as int % 16 && is / 32 == was / 32
            &&& reg == 0x0b ==> (is / 16) % 2 == (was / 16) % 2
        }),
{
    band_registers(c, p, bw);
    if bw <= 2_430_000 {
        narrow_plan(bw as int);
    }
    let (r, v): (u8, u8) = (register(c.regs, 0x0b), band_plan(bw as int).reg_0b);
    masked_bit_4(register(c.regs, 0x0a), band_plan(bw as int).reg_0a);
    assert((((r & !0xefu8) | (v & 0xef)) / 16) % 2 == (r / 16) % 2) by (bit_vector);
}

/// Setting the gain takes the steps of LNA and mixer in turn, the LNA first, sets the VGA to
/// the code 8, and leaves everything else as it was: the inputs, the rest of the registers
/// of LNA, mixer and VGA, and every other register.
pub proof fn gain_leaves_the_rest(c: Chip, p: Port, gain: i32)
    requires
        c.regs.len() == NUM_REGS,
        r82xx_set_gain_run(c, p, gain).flow is Done,
    ensures
        ({
            let s = r82xx_set_gain_run(c, p, gain).state;
            let lna = register(s.regs, 0x05) as int % 16;
            let mixer = register(s.regs, 0x07) as int % 16;
            &&& s == (Chip { regs: s.regs, ..c })
            &&& lna == mixer || lna == mixer + 1
            &&& vga_code(s.regs) == 8
            &&& register(s.regs, 0x05) / 32 == register(c.regs, 0x05) / 32
            &&& register(s.regs, 0x07) / 32 == register(c.regs, 0x07) / 32
            &&& (register(s.regs, 0x0c) / 32) % 4 == (register(c.regs, 0x0c) / 32) % 4
            &&& forall|reg: int|
                5 <= reg < 35 && reg != 0x05 && reg != 0x07 && reg != 0x0c ==> #[trigger] register(
                    s.regs,
                    reg,
                ) == register(c.regs, reg)
        }),
{
    gain_registers(c, p, gain);
    let k = gain_rung(gain as int);
    let (a, b): (u8, u8) = (((k + 1) / 2) as u8, (k / 2) as u8);
    let (r5, r7, rc): (u8, u8, u8) = (
        register(c.regs, 0x05),
        register(c.regs, 0x07),
        register(c.regs, 0x0c),
    );
    masked_nibble(masked(r5, 0x10, 0x10), a);
    masked_nibble(masked(r7, 0x00, 0x10), b);
    vga_of(rc, 0x08);
    assert(masked(masked(r5, 0x10, 0x10), a, 0x0f) / 32 == r5 / 32 && masked(
        masked(r7, 0x00, 0x10),
        b,
        0x0f,
    ) / 32 == r7 / 32 && (masked(rc, 0x08, 0x9f) / 32) % 4 == (rc / 32) % 4) by (bit_vector);
}

} // verus!
