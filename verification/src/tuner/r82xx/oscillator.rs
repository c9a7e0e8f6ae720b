//! The local oscillator that the tuner's registers stand for.

use vstd::prelude::*;

use crate::error::{Fault, TunerFault};
use crate::exchange::{goes_on, in_turn, Answer, Flow, Port, Transfer};
use crate::tuner::r82xx::Chip;
use crate::tuner::r82xx::constants::{reversed_bits, R82xxChip, NUM_REGS};
use crate::tuner::r82xx::effect::step_leaves_its_effect;
use crate::tuner::r82xx::i2c::{
    cached, chunk_size, holds, masked, messages_run, read_run, stored, write_reg_mask_resumes,
    write_reg_mask_run, write_run, ChipStep,
};
use crate::tuner::r82xx::meaning::register;
use crate::tuner::r82xx::pll::{
    divider, divider_exists_once, divider_number, in_khz, lock_run, pll_registers_hold_nearest_word,
    pll_regs, pll_shadow, pll_word, program_resumes, program_run, reports_lock, second_look_resumes,
    set_pll_run, tuned_number,
};
use crate::usb::i2c_write_run;

verus! {

/// Two, doubled `n` times.
pub open spec fn doubled(n: int) -> int
    decreases n,
{
    if n <= 0 {
        2
    } else {
        2 * doubled(n - 1)
    }
}

/// The number of the mixer divider in the top three bits of register 0x10.
pub open spec fn number_in(regs: Seq<u8>) -> int {
    register(regs, 0x10) as int / 32
}

/// The mixer divider that the registers stand for.
pub open spec fn divider_in(regs: Seq<u8>) -> int {
    doubled(number_in(regs))
}

/// The ratio of the VCO to twice the crystal in units of 2^-16 that the registers stand
/// for: an integer part in register 0x14, less 13, its low two bits on top; a fraction
/// in the registers 0x16 and 0x15.
pub open spec fn ratio_in(regs: Seq<u8>) -> int {
    let r = register(regs, 0x14) as int;
    65536 * (13 + 4 * (r % 64) + r / 64) + 256 * register(regs, 0x16) + register(regs, 0x15)
}

/// Whether the VCO that the registers stand for is `d` times the frequency `freq`, as near
/// as the ratio allows.
pub open spec fn vco_is(regs: Seq<u8>, xtal: u32, freq: int, d: int) -> bool {
    -(xtal as int) <= 2 * xtal * ratio_in(regs) - 65536 * (freq * d) <= xtal
}

/// Whether the local oscillator that the registers stand for, twice the crystal times the
/// ratio over the divider, has the frequency `freq`, as near as the ratio allows.
pub open spec fn oscillates_at(regs: Seq<u8>, xtal: u32, freq: int) -> bool {
    vco_is(regs, xtal, freq, divider_in(regs))
}

/// Whether the divider `d` puts the VCO for `freq`, taken in kHz, between 1.77 and 3.54
/// GHz.
pub open spec fn divides(freq: u32, d: int) -> bool {
    let khz = (freq + 500) / 1000;
    1_770_000 <= khz * d < 3_540_000
}

/// A read of the tuner's first five registers.
pub open spec fn status_read(i2c_addr: u8) -> Transfer {
    Transfer::In { value: i2c_addr as u16, index: 0x0600, len: 5 }
}

/// The fine tuning of the VCO that an answer to a status read reports, in bits 2 and 3 of
/// its last byte, which comes with its bits in the opposite order.
pub open spec fn fine_in(data: Seq<u8>) -> int {
    2 * ((data[4] as int / 4) % 2) + (data[4] as int / 8) % 2
}

/// The fine tuning that the driver takes for the reference.
pub open spec fn fine_reference(chip: R82xxChip) -> int {
    if chip == R82xxChip::R828D {
        1
    } else {
        2
    }
}

/// Whether every status that was read from the position `from` on reports a fine tuning on
/// the reference.
pub open spec fn on_reference(c: Chip, port: Port, from: int) -> bool {
    forall|i: int|
        from <= i < port.sent.len() && #[trigger] port.sent[i] == status_read(c.i2c_addr)
            ==> (port.replies[i] matches Answer::Received(data) ==> fine_in(data)
            == fine_reference(c.rafael_chip))
}

/// Whether the registers stand for the frequency `freq` with the divider number `n`, where
/// the transfer at the position `i` read the status: the VCO is that of the divider, and
/// the number in the registers is moved by one where the fine tuning lies off the
/// reference.
pub open spec fn programmed(c: Chip, port: Port, regs: Seq<u8>, freq: u32, i: int, n: int) -> bool {
    &&& 0 <= i < port.sent.len()
    &&& port.sent[i] == status_read(c.i2c_addr)
    &&& 0 <= n < 6
    &&& divides(freq, doubled(n))
    &&& vco_is(regs, c.xtal, freq as int, doubled(n))
    &&& port.replies[i] matches Answer::Received(data) && data.len() >= 5 && number_in(regs) == (
    if fine_in(data) < fine_reference(c.rafael_chip) {
        n + 1
    } else if fine_in(data) > fine_reference(c.rafael_chip) && n > 0 {
        n - 1
    } else {
        n
    })
}

/// The registers after a lock, out of those that the PLL was programmed with: autotune set
/// to 8 kHz, the VCO current as it was or raised, the rest as it was.
spec fn locked_from(before: Seq<u8>, after: Seq<u8>) -> bool {
    &&& after.len() == NUM_REGS
    &&& register(after, 0x1a) == masked(register(before, 0x1a), 0x08, 0x08)
    &&& register(after, 0x12) == register(before, 0x12) || register(after, 0x12) == masked(
        register(before, 0x12),
        0x60,
        0xe0,
    )
    &&& forall|reg: int|
        5 <= reg < 35 && reg != 0x1a && reg != 0x12 ==> #[trigger] register(after, reg) == register(
            before,
            reg,
        )
}

proof fn mask_effect(c: Chip, p: Port, reg: u8, val: u8, mask: u8)
    requires
        c.regs.len() == NUM_REGS,
        5 <= reg < 35,
    ensures
        ({
            let r = write_reg_mask_run(c, p, reg, val, mask);
            &&& r.state == (Chip { regs: r.state.regs, ..c })
            &&& r.state.regs.len() == NUM_REGS
            &&& r.flow is Done ==> r.state.regs == c.regs.update(
                reg - 5,
                masked(c.regs[reg - 5], val, mask),
            )
        }),
{
    let step = ChipStep::Mask { reg, val, mask };
    step_leaves_its_effect(c, p, step);
    assert(step.run(c, p) == write_reg_mask_run(c, p, reg, val, mask));
}

proof fn lock_effect(c: Chip, p: Port, freq: u32)
    requires
        c.regs.len() == NUM_REGS,
        lock_run(c, p, freq).flow is Done,
    ensures
        locked_from(c.regs, lock_run(c, p, freq).state.regs),
        lock_run(c, p, freq).state == (Chip { regs: lock_run(c, p, freq).state.regs, ..c }),
{
    let f = read_run(c, p, 0x00, 3);
    mask_effect(c, f.port, 0x1a, 0x08, 0x08);
    mask_effect(c, f.port, 0x12, 0x60, 0xe0);
    let w = write_reg_mask_run(c, f.port, 0x12, 0x60, 0xe0);
    let g = read_run(w.state, w.port, 0x00, 3);
    mask_effect(w.state, g.port, 0x1a, 0x08, 0x08);
}

proof fn pll_write_effect(c: Chip, p: Port, vals: Seq<u8>)
    requires
        c.regs.len() == NUM_REGS,
        vals.len() == 7,
        write_run(c, p, 0x10, vals).flow is Done,
    ensures
        ({
            let s = write_run(c, p, 0x10, vals).state;
            &&& s == (Chip { regs: s.regs, ..c })
            &&& s.regs.len() == NUM_REGS
            &&& forall|reg: int|
                5 <= reg < 35 ==> #[trigger] register(s.regs, reg) == (if 0x10 <= reg < 0x17 {
                    vals[reg - 0x10]
                } else {
                    register(c.regs, reg)
                })
        }),
{
    let s = write_run(c, p, 0x10, vals).state;
    if holds(c.regs, 0x10, vals) {
        assert forall|reg: int| 0x10 <= reg < 0x17 implies #[trigger] register(s.regs, reg)
            == vals[reg - 0x10] by {
            assert(c.regs.subrange(11, 18)[reg - 0x10] == vals[reg - 0x10]);
        }
    } else {
        assert(s.regs == stored(c.regs, 0x10, vals));
    }
}

proof fn divider_byte(old: u8, number: int)
    requires
        0 <= number <= 7,
    ensures
        ({
            let r = masked(masked(old, 0x00, 0x10), (32 * number) as u8, 0xe0);
            &&& r as int / 32 == number
            &&& (r / 16) % 2 == 0
            &&& r as int % 16 == old as int % 16
        }),
{
    let n = number as u8;
    let v = (32 * number) as u8;
    let m = (old & !0x10u8) | (0x00u8 & 0x10);
    let r = (m & !0xe0u8) | (v & 0xe0);
    assert(r / 32 == n && (r / 16) % 2 == 0 && r % 16 == old % 16) by (bit_vector)
        requires
            n <= 7,
            v == 32 * n,
            m == (old & !0x10u8) | (0x00u8 & 0x10),
            r == (m & !0xe0u8) | (v & 0xe0),
    ;
}

proof fn fine_bits(raw: u8, status: u8)
    requires
        status == reversed_bits(raw),
    ensures
        ((status & 0x30) >> 4) as int == 2 * ((raw as int / 4) % 2) + (raw as int / 8) % 2,
{
    let s = reversed_bits(raw);
    assert((s & 0x30) >> 4 == 2 * ((raw / 4) % 2) + (raw / 8) % 2) by (bit_vector)
        requires
            s == ((raw & 0x01) << 7) | ((raw & 0x02) << 5) | ((raw & 0x04) << 3) | ((raw & 0x08)
                << 1) | ((raw & 0x10) >> 1) | ((raw & 0x20) >> 3) | ((raw & 0x40) >> 5) | ((raw
                & 0x80) >> 7),
    ;
}

proof fn divider_is_doubled(n: int)
    requires
        0 <= n < 6,
    ensures
        divider(n) == doubled(n),
{
    reveal_with_fuel(doubled, 6);
}

/// The registers after a frequency was programmed and has locked: what they stand for, and
/// that the rest is as it was.
pub open spec fn pll_set(before: Seq<u8>, after: Seq<u8>) -> bool {
    let (r10, r12, r1a): (u8, u8, u8) = (
        register(after, 0x10),
        register(after, 0x12),
        register(after, 0x1a),
    );
    &&& after.len() == NUM_REGS
    // No division of the reference
    &&& (r10 / 16) % 2 == 0
    &&& r10 as int % 16 == register(before, 0x10) as int % 16
    // The fraction is powered down exactly where there is none
    &&& ((r12 / 8) % 2 == 1) == (ratio_in(after) % 65536 == 0)
    &&& r12 as int % 8 == register(before, 0x12) as int % 8
    &&& (r12 / 16) % 2 == (register(before, 0x12) / 16) % 2
    // VCO current 100, or raised after a look in vain
    &&& r12 as int / 32 == 4 || r12 as int / 32 == 3
    // Autotune 8 kHz
    &&& (r1a / 4) % 4 == 2
    &&& r1a as int % 4 == register(before, 0x1a) as int % 4
    &&& r1a / 16 == register(before, 0x1a) / 16
    &&& forall|reg: int|
        5 <= reg < 35 && reg != 0x10 && reg != 0x12 && reg != 0x14 && reg != 0x15 && reg != 0x16
            && reg != 0x1a ==> #[trigger] register(after, reg) == register(before, reg)
}

proof fn current_byte(old: u8, power_down: bool, raised: bool)
    ensures
        ({
            let v: u8 = if power_down {
                0x08
            } else {
                0x00
            };
            let set = masked(masked(old, 0x80, 0xe0), v, 0x08);
            let r = if raised {
                masked(set, 0x60, 0xe0)
            } else {
                set
            };
            &&& ((r / 8) % 2 == 1) == power_down
            &&& r as int % 8 == old as int % 8
            &&& (r / 16) % 2 == (old / 16) % 2
            &&& r as int / 32 == (if raised {
                3int
            } else {
                4int
            })
        }),
{
    let v: u8 = if power_down {
        0x08
    } else {
        0x00
    };
    let a = (old & !0xe0u8) | (0x80u8 & 0xe0);
    let b = (a & !0x08u8) | (v & 0x08);
    let d = (b & !0xe0u8) | (0x60u8 & 0xe0);
    assert((b / 8) % 2 == (v / 8) % 2 && b % 8 == old % 8 && (b / 16) % 2 == (old / 16) % 2 && b / 32
        == 4 && (d / 8) % 2 == (v / 8) % 2 && d % 8 == old % 8 && (d / 16) % 2 == (old / 16) % 2 && d
        / 32 == 3) by (bit_vector)
        requires
            a == (old & !0xe0u8) | (0x80u8 & 0xe0),
            b == (a & !0x08u8) | (v & 0x08),
            d == (b & !0xe0u8) | (0x60u8 & 0xe0),
    ;
}

proof fn autotune_byte(old: u8)
    ensures
        ({
            let r = masked(masked(old, 0x00, 0x0c), 0x08, 0x08);
            &&& (r / 4) % 4 == 2
            &&& r as int % 4 == old as int % 4
            &&& r / 16 == old / 16
        }),
{
    let a = (old & !0x0cu8) | (0x00u8 & 0x0c);
    let r = (a & !0x08u8) | (0x08u8 & 0x08);
    assert((r / 4) % 4 == 2 && r % 4 == old % 4 && r / 16 == old / 16) by (bit_vector)
        requires
            a == (old & !0x0cu8) | (0x00u8 & 0x0c),
            r == (a & !0x08u8) | (0x08u8 & 0x08),
    ;
}

proof fn small_word(xtal: u32, freq: u32, n: int)
    requires
        xtal > 0,
        divider_number(in_khz(freq)) == Some(n),
    ensures
        0 <= n < 6,
        0 <= pll_word(xtal, freq, divider(n)) < 0x1_0000_0000_0000,
{
    divider_exists_once(in_khz(freq), n);
    let d = divider(n);
    let vco = freq * d;
    assert(0 <= vco < 3_540_032_000) by {
        let khz = in_khz(freq);
        assert(freq < 1000 * khz + 500);
        assert(d == 2 || d == 4 || d == 8 || d == 16 || d == 32 || d == 64);
    }
    let x = xtal + 65536 * vco;
    let b = 2 * xtal as int;
    let word = pll_word(xtal, freq, d);
    vstd::arithmetic::div_mod::lemma_fundamental_div_mod(x, b);
    let rem = x % b;
    assert(0 <= word < 0x1_0000_0000_0000) by (nonlinear_arith)
        requires
            x == b * word + rem,
            0 <= rem < b,
            2 <= b,
            0 <= x < b + 65536 * 3_540_032_000,
    ;
}

proof fn program_effect(before: Seq<u8>, c: Chip, p: Port, freq: u32, n: int, status: u8)
    requires
        before.len() == NUM_REGS,
        c.regs == before.update(21, masked(before[21], 0x00, 0x0c)),
        c.xtal > 0,
        divider_number(in_khz(freq)) == Some(n),
        program_run(c, p, freq, n, status).flow is Done,
    ensures
        ({
            let s = program_run(c, p, freq, n, status).state;
            &&& s == (Chip { regs: s.regs, ..c })
            &&& vco_is(s.regs, c.xtal, freq as int, doubled(n))
            &&& number_in(s.regs) == tuned_number(c.rafael_chip, n, status)
            &&& pll_set(before, s.regs)
        }),
{
    small_word(c.xtal, freq, n);
    divider_is_doubled(n);
    let word = pll_word(c.xtal, freq, divider(n));
    let number = tuned_number(c.rafael_chip, n, status);
    let vals = pll_regs(pll_shadow(c), number, word);
    let w = write_run(c, p, 0x10, vals);
    pll_write_effect(c, p, vals);
    lock_effect(w.state, w.port, freq);
    let s = program_run(c, p, freq, n, status).state;
    pll_registers_hold_nearest_word(pll_shadow(c), c.rafael_chip, number, c.xtal, freq, n);
    assert(register(s.regs, 0x14) == vals[4]);
    assert(register(s.regs, 0x15) == vals[5]);
    assert(register(s.regs, 0x16) == vals[6]);
    assert(ratio_in(s.regs) == word);
    assert(pll_shadow(c)[0] == register(c.regs, 0x10));
    assert(pll_shadow(c)[1] == register(c.regs, 0x11));
    assert(pll_shadow(c)[2] == register(c.regs, 0x12));
    assert(pll_shadow(c)[3] == register(c.regs, 0x13));
    divider_byte(register(c.regs, 0x10), number);
    assert(register(s.regs, 0x10) == vals[0]);
    current_byte(register(c.regs, 0x12), word % 65536 == 0, false);
    current_byte(register(c.regs, 0x12), word % 65536 == 0, true);
    assert(register(w.state.regs, 0x12) == vals[2]);
    autotune_byte(register(before, 0x1a));
    assert forall|reg: int|
        5 <= reg < 35 && reg != 0x10 && reg != 0x12 && reg != 0x14 && reg != 0x15 && reg != 0x16
            && reg != 0x1a implies #[trigger] register(s.regs, reg) == register(before, reg) by {
        assert(register(s.regs, reg) == register(w.state.regs, reg));
        assert(register(c.regs, reg) == register(before, reg));
    }
}

/// Setting the PLL, once it went through, leaves registers that stand for the frequency
/// asked for, for every frequency that has a divider; and touches nothing else.
pub proof fn registers_hold_the_frequency(c: Chip, p: Port, freq: u32)
    requires
        c.regs.len() == NUM_REGS,
        set_pll_run(c, p, freq).flow is Done,
    ensures
        ({
            let r = set_pll_run(c, p, freq);
            &&& r.state == (Chip { regs: r.state.regs, ..c })
            &&& pll_set(c.regs, r.state.regs)
            &&& exists|i: int, n: int|
                p.sent.len() <= i && #[trigger] programmed(c, r.port, r.state.regs, freq, i, n)
        }),
{
    let r = set_pll_run(c, p, freq);
    mask_effect(c, p, 0x1a, 0x00, 0x0c);
    let a = write_reg_mask_run(c, p, 0x1a, 0x00, 0x0c);
    write_reg_mask_resumes(c, p, 0x1a, 0x00, 0x0c, Seq::empty());
    let n = divider_number(in_khz(freq))->0;
    let w = i2c_write_run(a.port, c.i2c_addr, seq![0x00u8]);
    let f = read_run(a.state, a.port, 0x00, 5);
    let i = w.port.sent.len() as int;
    let data = f.flow->Done_0;
    let status = data[4];
    program_effect(c.regs, a.state, f.port, freq, n, status);
    program_resumes(a.state, f.port, freq, n, status, Seq::empty());
    assert(f.port.sent[i] == status_read(c.i2c_addr));
    assert(r.port.sent[i] == f.port.sent[i]);
    let raw = r.port.replies[i]->Received_0;
    fine_bits(raw[4], status);
    divider_is_doubled(n);
    divider_exists_once(in_khz(freq), n);
    small_word(c.xtal, freq, n);
    assert(programmed(c, r.port, r.state.regs, freq, i, n));
}

/// Where the status reports a fine tuning on the reference, the local oscillator that the
/// registers stand for has the frequency asked for: the divider in register 0x10 is the
/// one for which the ratio in the registers 0x14 to 0x16 was made.
pub proof fn oscillator_has_the_frequency(c: Chip, p: Port, freq: u32)
    requires
        c.regs.len() == NUM_REGS,
        set_pll_run(c, p, freq).flow is Done,
        on_reference(c, set_pll_run(c, p, freq).port, p.sent.len() as int),
    ensures
        ({
            let regs = set_pll_run(c, p, freq).state.regs;
            &&& oscillates_at(regs, c.xtal, freq as int)
            &&& divides(freq, divider_in(regs))
        }),
{
    registers_hold_the_frequency(c, p, freq);
    let r = set_pll_run(c, p, freq);
    let (i, n) = choose|i: int, n: int|
        p.sent.len() <= i && #[trigger] programmed(c, r.port, r.state.regs, freq, i, n);
    assert(r.port.sent[i] == status_read(c.i2c_addr));
}

/// Whether the transfer at the position `i` looked for a lock, and its answer reports one
/// exactly where `locked` says so, in bit 1 of its third byte.
pub open spec fn looked(i2c_addr: u8, port: Port, i: int, locked: bool) -> bool {
    &&& 0 <= i < port.sent.len()
    &&& port.sent[i] == (Transfer::In { value: i2c_addr as u16, index: 0x0600, len: 3 })
    &&& port.replies[i] matches Answer::Received(data) && data.len() >= 3 && ((data[2] / 2) % 2
        == 1) == locked
}

proof fn look_bit(raw: u8)
    ensures
        (reversed_bits(raw) & 0x40 != 0) == ((raw / 2) % 2 == 1),
{
    let s = reversed_bits(raw);
    assert((s & 0x40 != 0) == ((raw / 2) % 2 == 1)) by (bit_vector)
        requires
            s == ((raw & 0x01) << 7) | ((raw & 0x02) << 5) | ((raw & 0x04) << 3) | ((raw & 0x08)
                << 1) | ((raw & 0x10) >> 1) | ((raw & 0x20) >> 3) | ((raw & 0x40) >> 5) | ((raw
                & 0x80) >> 7),
    ;
}

/// A look for a lock reports what its answer says.
pub proof fn look_at(c: Chip, p: Port)
    requires
        read_run(c, p, 0x00, 3).flow is Done,
    ensures
        looked(
            c.i2c_addr,
            read_run(c, p, 0x00, 3).port,
            p.sent.len() as int + 1,
            reports_lock(read_run(c, p, 0x00, 3).flow->Done_0),
        ),
{
    let w = i2c_write_run(p, c.i2c_addr, seq![0x00u8]);
    let f = read_run(c, p, 0x00, 3);
    let raw = f.port.replies[w.port.sent.len() as int]->Received_0;
    look_bit(raw[2]);
}

proof fn looked_stays(i2c_addr: u8, early: Port, late: Port, i: int, locked: bool)
    requires
        looked(i2c_addr, early, i, locked),
        goes_on(early.sent, late.sent),
        early.replies == late.replies,
    ensures
        looked(i2c_addr, late, i, locked),
{
    assert(early.sent[i] == late.sent[i]);
}

/// Looking for a lock goes through only where one of two looks reports it. The VCO
/// current is raised exactly where the first reports none; and where a second one reports
/// none either, the lock is missed.
pub proof fn lock_is_reported(c: Chip, p: Port, freq: u32)
    requires
        c.regs.len() == NUM_REGS,
    ensures
        ({
            let r = lock_run(c, p, freq);
            let first = p.sent.len() as int + 1;
            &&& r.flow is Done ==> exists|i: int|
                first <= i && #[trigger] looked(c.i2c_addr, r.port, i, true)
            &&& r.flow is Done && looked(c.i2c_addr, r.port, first, true) ==> register(
                r.state.regs,
                0x12,
            ) == register(c.regs, 0x12)
            &&& r.flow is Done && !looked(c.i2c_addr, r.port, first, true) ==> register(
                r.state.regs,
                0x12,
            ) as int / 32 == 3 && looked(c.i2c_addr, r.port, first, false)
            &&& r.flow == Flow::<()>::Failed(
                Fault::Tuner(TunerFault::PllNotLocked { freq_hz: freq }),
            ) ==> looked(c.i2c_addr, r.port, first, false) && exists|i: int|
                first < i && #[trigger] looked(c.i2c_addr, r.port, i, false)
        }),
{
    let r = lock_run(c, p, freq);
    let first = p.sent.len() as int + 1;
    let f = read_run(c, p, 0x00, 3);
    if f.flow is Done {
        look_at(c, p);
        let seen = reports_lock(f.flow->Done_0);
        mask_effect(c, f.port, 0x1a, 0x08, 0x08);
        mask_effect(c, f.port, 0x12, 0x60, 0xe0);
        write_reg_mask_fails_otherwise(c, f.port, freq);
        write_reg_mask_resumes(c, f.port, 0x1a, 0x08, 0x08, Seq::empty());
        write_reg_mask_resumes(c, f.port, 0x12, 0x60, 0xe0, Seq::empty());
        let w = write_reg_mask_run(c, f.port, 0x12, 0x60, 0xe0);
        if seen {
            looked_stays(c.i2c_addr, f.port, r.port, first, true);
            assert(!looked(c.i2c_addr, r.port, first, false));
        } else if w.flow is Done {
            second_look_resumes(w.state, w.port, freq, Seq::empty());
            in_turn(f.port, w.port, r.port);
            looked_stays(c.i2c_addr, f.port, r.port, first, false);
            let g = read_run(w.state, w.port, 0x00, 3);
            read_fails_otherwise(w.state, w.port, freq);
            if g.flow is Done {
                look_at(w.state, w.port);
                mask_effect(w.state, g.port, 0x1a, 0x08, 0x08);
                write_reg_mask_fails_otherwise(w.state, g.port, freq);
                write_reg_mask_resumes(w.state, g.port, 0x1a, 0x08, 0x08, Seq::empty());
                looked_stays(
                    c.i2c_addr,
                    g.port,
                    r.port,
                    w.port.sent.len() as int + 1,
                    reports_lock(g.flow->Done_0),
                );
                let b = register(c.regs, 0x12);
                assert(((b & !0xe0u8) | (0x60u8 & 0xe0)) / 32 == 3) by (bit_vector);
            }
        }
    } else {
        read_fails_otherwise(c, p, freq);
    }
}

proof fn read_fails_otherwise(c: Chip, p: Port, freq: u32)
    ensures
        read_run(c, p, 0x00, 3).flow != Flow::<Seq<u8>>::Failed(
            Fault::Tuner(TunerFault::PllNotLocked { freq_hz: freq }),
        ),
{
}

proof fn messages_fail_otherwise(
    p: Port,
    i2c_addr: u8,
    max_msg_len: nat,
    reg: int,
    val: Seq<u8>,
    freq: u32,
)
    ensures
        messages_run(p, i2c_addr, max_msg_len, reg, val).flow != Flow::<()>::Failed(
            Fault::Tuner(TunerFault::PllNotLocked { freq_hz: freq }),
        ),
    decreases val.len(),
{
    if val.len() > 0 {
        let size = chunk_size(val.len(), max_msg_len, (NUM_REGS + 1) as nat);
        let w = i2c_write_run(p, i2c_addr, seq![reg as u8] + val.take(size as int));
        messages_fail_otherwise(
            w.port,
            i2c_addr,
            max_msg_len,
            reg + size,
            val.skip(size as int),
            freq,
        );
    }
}

proof fn write_reg_mask_fails_otherwise(c: Chip, p: Port, freq: u32)
    ensures
        write_reg_mask_run(c, p, 0x12, 0x60, 0xe0).flow != Flow::<()>::Failed(
            Fault::Tuner(TunerFault::PllNotLocked { freq_hz: freq }),
        ),
        write_reg_mask_run(c, p, 0x1a, 0x08, 0x08).flow != Flow::<()>::Failed(
            Fault::Tuner(TunerFault::PllNotLocked { freq_hz: freq }),
        ),
{
    if let Some(old_val) = cached(c.regs, 0x12) {
        messages_fail_otherwise(
            p,
            c.i2c_addr,
            c.max_i2c_msg_len,
            0x12,
            seq![masked(old_val, 0x60, 0xe0)],
            freq,
        );
    }
    if let Some(old_val) = cached(c.regs, 0x1a) {
        messages_fail_otherwise(
            p,
            c.i2c_addr,
            c.max_i2c_msg_len,
            0x1a,
            seq![masked(old_val, 0x08, 0x08)],
            freq,
        );
    }
}

/// Setting the PLL goes through only for a crystal that is there and for a frequency that
/// has a divider, the frequencies from 27.657 to 1770 MHz.
pub proof fn only_divided_frequencies_are_set(c: Chip, p: Port, freq: u32)
    requires
        set_pll_run(c, p, freq).flow is Done,
    ensures
        c.xtal > 0,
        27_656_500 <= freq < 1_769_999_500,
{
    let n = divider_number(in_khz(freq))->0;
    divider_exists_once(in_khz(freq), n);
}

} // verus!
