//! What the registers of the RTL2832U stand for after an operation of the device.
//!
//! The registers are read off the transfers sent (see [`crate::wire`]), by page, address
//! and bit. The proofs say what they mean: the sample rate, the intermediate frequency,
//! the clock correction, the mode, the pins.

use vstd::prelude::*;

use crate::device::{
    clock_offset, clock_steps, corrected, if_freq_steps, if_word, if_word_holds_the_ratio,
    set_if_freq_run, set_sample_freq_correction_run, Dongle,
};
use crate::device::frequency::{
    bw_in_force, follow_rate_run, nominal_sample_rates_are_exact, rate_of_ratio, rate_steps,
    real_ratio, resample_ratio, set_center_freq_run, set_freq_correction_run, set_offset_tuning_run,
    set_sample_rate_run, try_bw_run, tuning_floor,
};
use crate::device::gain::{agc_mode, mode_run, set_tuner_if_gain_run};
use crate::device::invariants::{offset_tuning_sets_the_offset, sample_rate_is_kept_with_its_offset};
use crate::device::sampling::{
    direct_steps, power_tuner_run, set_bias_tee_run, set_direct_sampling_run, switch_input_run,
    test_mode, tuner_if, tuner_input_steps,
};
use crate::exchange::{goes_on, Port, Transfer};
use crate::pins::{change_stays, changes_pin, pin_becomes_an_output, pin_is_changed};
use crate::reg::{TunerType, GPO};
use crate::tuner::Tuner;
use crate::usb::{set_gpio_output_run, set_i2c_repeater_run, steps_run, RegStep};
use crate::wire::{
    after_steps, demod_step_bytes, held_at, last_write_stands, spared_demod_is_spared,
    spared_register_stays, spares, spares_in_turn, step_leaves_its_bytes, steps_leave_their_bytes,
    steps_spare, Place,
};

verus! {

/// Switching the bias tee, once it went through, makes its pin an output and ends with a
/// write of the output register, 0x3001, in which the bit of the pin is set exactly where
/// the bias tee was switched on, and every other bit is as it was read.
pub proof fn bias_tee_is_switched(p: Port, gpio: u8, on: bool)
    requires
        gpio < 16,
        set_bias_tee_run(p, gpio, on).flow is Done,
    ensures
        ({
            let r = set_bias_tee_run(p, gpio, on);
            let at = p.sent.len() as int;
            &&& goes_on(p.sent, r.port.sent)
            &&& r.port.sent.len() == at + 6
            &&& changes_pin(r.port, at, 0x3004, gpio, false)
            &&& changes_pin(r.port, at + 2, 0x3003, gpio, true)
            &&& changes_pin(r.port, at + 4, 0x3001, gpio, on)
        }),
{
    let g = set_gpio_output_run(p, gpio);
    let r = set_bias_tee_run(p, gpio, on);
    let at = p.sent.len() as int;
    pin_becomes_an_output(p, gpio);
    pin_is_changed(g.port, GPO, gpio, on);
    change_stays(g.port, r.port, at, 0x3004, gpio, false);
    change_stays(g.port, r.port, at + 2, 0x3003, gpio, true);
}

/// What a register of the demodulator holds after the transfers `sent`; -1 where none
/// wrote it.
pub open spec fn demod(sent: Seq<Transfer>, page: int, addr: int) -> int {
    match held_at(sent, Place::Demod { page, addr }) {
        Some(b) => b as int,
        None => -1,
    }
}

/// Whether a byte register holds something.
pub open spec fn is_byte(v: int) -> bool {
    0 <= v < 256
}

/// The resampling ratio in the registers 0x9f to 0xa2 of page 1, high byte first.
pub open spec fn ratio_held(sent: Seq<Transfer>) -> int {
    0x100_0000 * demod(sent, 1, 0x9f) + 0x1_0000 * demod(sent, 1, 0xa0) + 0x100 * demod(sent, 1, 0xa1)
        + demod(sent, 1, 0xa2)
}

/// The ratio as the demodulator takes it: of 28 bits, the highest standing for the one
/// above it too.
pub open spec fn ratio_taken(held: int) -> int {
    if held < 0x800_0000 {
        held
    } else {
        held + 0x1000_0000
    }
}

#[verifier::rlimit(30)]
proof fn rate_steps_bytes(before: Option<u8>, ratio: u32, corr: i32, addr: int)
    requires
        0x9f <= addr <= 0xa2 || addr == 0x3e || addr == 0x3f,
    ensures
        after_steps(before, rate_steps(ratio, corr), Place::Demod { page: 1, addr }) == Some(
            (if addr == 0x9f {
                (ratio / 0x100_0000) as int
            } else if addr == 0xa0 {
                (ratio as int / 0x1_0000) % 256
            } else if addr == 0xa1 {
                (ratio as int / 0x100) % 256
            } else if addr == 0xa2 {
                ratio as int % 256
            } else if addr == 0x3f {
                clock_offset(corr) % 256
            } else {
                (clock_offset(corr) / 256) % 64
            }) as u8,
        ),
{
    let place = Place::Demod { page: 1, addr };
    let steps = rate_steps(ratio, corr);
    let offset = clock_offset(corr);
    demod_step_bytes(1, 0x9f, (ratio / 65536) as u16, 2, place);
    demod_step_bytes(1, 0xa1, (ratio % 65536) as u16, 2, place);
    demod_step_bytes(1, 0x3f, (offset % 256) as u16, 1, place);
    demod_step_bytes(1, 0x3e, ((offset / 256) % 64) as u16, 1, place);
    demod_step_bytes(1, 0x01, 0x14, 1, place);
    demod_step_bytes(1, 0x01, 0x10, 1, place);
    let i: int = if addr <= 0x3e {
        3
    } else if addr == 0x3f {
        2
    } else if addr <= 0xa0 {
        0
    } else {
        1
    };
    last_write_stands(before, steps, place, i);
    assert(ratio / 65536 <= 0xffff);
    assert((ratio / 65536) / 256 == ratio / 0x100_0000);
}

/// Whether a register of the demodulator is none of those that tuning writes: the switch
/// of the repeater and the intermediate frequency.
pub open spec fn beside_tuning(page: int, addr: int) -> bool {
    page != 1 || (addr != 0x01 && addr != 0x19 && addr != 0x1a && addr != 0x1b)
}

proof fn if_freq_spares(p: Port, rtl_xtal: u32, corr: i32, freq: u32, page: int, addr: int)
    requires
        beside_tuning(page, addr),
    ensures
        spares(p, set_if_freq_run(p, rtl_xtal, corr, freq), Place::Demod { page, addr }),
{
    let place = Place::Demod { page, addr };
    let word = if_word(freq, corrected(rtl_xtal, corr));
    demod_step_bytes(1, 0x19, (word / 65536) as u16, 1, place);
    demod_step_bytes(1, 0x1a, ((word / 256) % 256) as u16, 1, place);
    demod_step_bytes(1, 0x1b, (word % 256) as u16, 1, place);
    steps_spare(p, if_freq_steps(word), place);
}

proof fn repeater_spares(p: Port, on: bool, page: int, addr: int)
    requires
        beside_tuning(page, addr),
    ensures
        spares(p, set_i2c_repeater_run(p, on), Place::Demod { page, addr }),
{
    let place = Place::Demod { page, addr };
    let val: u16 = if on {
        0x18
    } else {
        0x10
    };
    demod_step_bytes(1, 0x01, val, 1, place);
    let steps = seq![RegStep::Demod { page: 1, addr: 0x01, val, len: 1 }];
    steps_spare(p, steps, place);
    reveal_with_fuel(steps_run, 2);
}

proof fn set_center_freq_spares<T: Tuner>(
    d: Dongle<T::Model>,
    p: Port,
    freq: u32,
    page: int,
    addr: int,
)
    requires
        beside_tuning(page, addr),
    ensures
        spares(p, set_center_freq_run::<T>(d, p, freq), Place::Demod { page, addr }),
{
    let place = Place::Demod { page, addr };
    if_freq_spares(p, d.rtl_xtal, d.corr, freq, page, addr);
    if let Some(m) = d.tuner {
        repeater_spares(p, true, page, addr);
        let o = set_i2c_repeater_run(p, true);
        let lo = (freq - d.offs_freq) as u32;
        T::leaves_the_demodulator(m, o.port, lo, 0, 0, 0, false, 0);
        let t = T::set_freq_run(m, o.port, lo);
        spared_demod_is_spared(o.port, t, page, addr);
        spares_in_turn(p, o, t, place);
        repeater_spares(t.port, false, page, addr);
        spares_in_turn(p, t, set_i2c_repeater_run(t.port, false), place);
    }
}

proof fn try_bw_spares<T: Tuner>(d: Dongle<T::Model>, p: Port, bw: u32, page: int, addr: int)
    requires
        beside_tuning(page, addr),
    ensures
        spares(p, try_bw_run::<T>(d, p, bw), Place::Demod { page, addr }),
{
    let place = Place::Demod { page, addr };
    if let Some(m) = d.tuner {
        repeater_spares(p, true, page, addr);
        let o = set_i2c_repeater_run(p, true);
        T::leaves_the_demodulator(m, o.port, 0, bw, d.rate, 0, false, 0);
        let t = T::set_bw_run(m, o.port, bw, d.rate);
        spared_demod_is_spared(o.port, t, page, addr);
        spares_in_turn(p, o, t, place);
        repeater_spares(t.port, false, page, addr);
        spares_in_turn(p, t, set_i2c_repeater_run(t.port, false), place);
    }
}

proof fn set_offset_tuning_spares<T: Tuner>(
    d: Dongle<T::Model>,
    p: Port,
    on: bool,
    page: int,
    addr: int,
)
    requires
        beside_tuning(page, addr),
    ensures
        spares(p, set_offset_tuning_run::<T>(d, p, on), Place::Demod { page, addr }),
{
    let place = Place::Demod { page, addr };
    let offset: u32 = if on {
        tuning_floor(d.rate) as u32
    } else {
        0
    };
    let bw = if on {
        (2 * offset) as u32
    } else {
        bw_in_force(d)
    };
    if_freq_spares(p, d.rtl_xtal, d.corr, offset, page, addr);
    let i = set_if_freq_run(p, d.rtl_xtal, d.corr, offset);
    let d1 = Dongle { offs_freq: offset, ..d };
    try_bw_spares::<T>(d1, i.port, bw, page, addr);
    let b = try_bw_run::<T>(d1, i.port, bw);
    spares_in_turn(p, i, b, place);
    set_center_freq_spares::<T>(b.state, b.port, d.freq, page, addr);
    spares_in_turn(p, b, set_center_freq_run::<T>(b.state, b.port, d.freq), place);
}

proof fn rate_reaches_the_register<T: Tuner>(d: Dongle<T::Model>, p: Port, rate: u32, addr: int)
    requires
        set_sample_rate_run::<T>(d, p, rate).flow is Done,
        0x9f <= addr <= 0xa2,
    ensures
        held_at(
            set_sample_rate_run::<T>(d, p, rate).port.sent,
            Place::Demod { page: 1, addr },
        ) == after_steps(
            None,
            rate_steps(resample_ratio(d.rtl_xtal, rate), d.corr),
            Place::Demod { page: 1, addr },
        ),
{
    let place = Place::Demod { page: 1, addr };
    let ratio = resample_ratio(d.rtl_xtal, rate);
    let d1 = Dongle { rate: rate_of_ratio(d.rtl_xtal, ratio), ..d };
    let b = follow_rate_run::<T>(d1, p);
    let steps = rate_steps(ratio, d.corr);
    let s = steps_run(b.port, steps);
    steps_leave_their_bytes(b.port, steps, place);
    rate_steps_bytes(held_at(b.port.sent, place), ratio, d.corr, addr);
    rate_steps_bytes(None, ratio, d.corr, addr);
    if d.offs_freq > 0 {
        set_offset_tuning_spares::<T>(b.state, s.port, true, 1, addr);
        let r = set_offset_tuning_run::<T>(b.state, s.port, true);
        spared_register_stays(s.port.sent, r.port.sent, place);
    }
}

proof fn ratio_bits(ratio: u32)
    requires
        ratio & 0x0fff_fffc == ratio,
    ensures
        ratio < 0x1000_0000,
        ratio % 4 == 0,
        real_ratio(ratio) as int == ratio_taken(ratio as int),
{
    let whole = ratio | ((ratio & 0x0800_0000) << 1);
    assert(ratio < 0x1000_0000 && ratio % 4 == 0 && (ratio < 0x800_0000 ==> whole == ratio) && (ratio
        >= 0x800_0000 ==> whole == ratio + 0x1000_0000)) by (bit_vector)
        requires
            ratio & 0x0fff_fffc == ratio,
            whole == ratio | ((ratio & 0x0800_0000) << 1),
    ;
}

proof fn quotient_bounds(x: int, b: int)
    requires
        b > 0,
    ensures
        (x / b) * b <= x < (x / b + 1) * b,
{
    vstd::arithmetic::div_mod::lemma_fundamental_div_mod(x, b);
    let q = x / b;
    let rem = x % b;
    assert(q * b <= x < (q + 1) * b) by (nonlinear_arith)
        requires
            x == b * q + rem,
            0 <= rem < b,
    ;
}

proof fn ratio_reaches_the_demodulator<T: Tuner>(d: Dongle<T::Model>, p: Port, rate: u32)
    requires
        set_sample_rate_run::<T>(d, p, rate).flow is Done,
    ensures
        ({
            let sent = set_sample_rate_run::<T>(d, p, rate).port.sent;
            &&& is_byte(demod(sent, 1, 0x9f)) && is_byte(demod(sent, 1, 0xa0))
            &&& is_byte(demod(sent, 1, 0xa1)) && is_byte(demod(sent, 1, 0xa2))
            &&& ratio_held(sent) == resample_ratio(d.rtl_xtal, rate)
        }),
{
    let ratio = resample_ratio(d.rtl_xtal, rate);
    let sent = set_sample_rate_run::<T>(d, p, rate).port.sent;
    assert(demod(sent, 1, 0x9f) == ratio as int / 0x100_0000) by {
        rate_reaches_the_register::<T>(d, p, rate, 0x9f);
        rate_steps_bytes(None, ratio, d.corr, 0x9f);
    }
    assert(demod(sent, 1, 0xa0) == (ratio as int / 0x1_0000) % 256) by {
        rate_reaches_the_register::<T>(d, p, rate, 0xa0);
        rate_steps_bytes(None, ratio, d.corr, 0xa0);
    }
    assert(demod(sent, 1, 0xa1) == (ratio as int / 0x100) % 256) by {
        rate_reaches_the_register::<T>(d, p, rate, 0xa1);
        rate_steps_bytes(None, ratio, d.corr, 0xa1);
    }
    assert(demod(sent, 1, 0xa2) == ratio as int % 256) by {
        rate_reaches_the_register::<T>(d, p, rate, 0xa2);
        rate_steps_bytes(None, ratio, d.corr, 0xa2);
    }
    four_bytes(ratio);
}

proof fn four_bytes(n: u32)
    ensures
        0x100_0000 * (n as int / 0x100_0000) + 0x1_0000 * ((n as int / 0x1_0000) % 256) + 0x100 * ((
        n as int / 0x100) % 256) + n as int % 256 == n,
        0 <= n as int / 0x100_0000 < 256,
{
}

proof fn ratio_is_the_nearest(xtal: u32, rate: u32)
    requires
        rate > 0,
    ensures
        ({
            let ratio = resample_ratio(xtal, rate);
            let taken = ratio_taken(ratio as int);
            let kept = rate_of_ratio(xtal, ratio);
            let wanted = xtal * 0x40_0000 / (rate as int);
            &&& ratio < 0x1000_0000
            &&& ratio % 4 == 0
            &&& taken > 0 && kept < u32::MAX ==> kept * taken <= xtal * 0x40_0000 < (kept + 1) * taken
            &&& wanted < 0x800_0000 || 0x1800_0000 <= wanted < 0x2000_0000 ==> taken <= wanted
                < taken + 4
        }),
{
    let ratio = resample_ratio(xtal, rate);
    let wanted = xtal * 0x40_0000 / (rate as int);
    let full: u32 = if wanted > u32::MAX {
        u32::MAX
    } else {
        wanted as u32
    };
    assert(wanted >= 0) by {
        vstd::arithmetic::div_mod::lemma_div_pos_is_pos(xtal * 0x40_0000, rate as int);
    }
    assert((full & 0x0fff_fffc) & 0x0fff_fffc == full & 0x0fff_fffc) by (bit_vector);
    ratio_bits(ratio);
    let taken = ratio_taken(ratio as int);
    if taken > 0 {
        quotient_bounds(xtal * 0x40_0000, taken);
        assert(xtal * 0x40_0000 / taken >= 0) by {
            vstd::arithmetic::div_mod::lemma_div_pos_is_pos(xtal * 0x40_0000, taken);
        }
    }
    let cut = full & 0x0fff_fffc;
    assert(full < 0x800_0000 ==> cut <= full && full < cut + 4 && cut < 0x800_0000) by (bit_vector)
        requires
            cut == full & 0x0fff_fffc,
    ;
    assert(0x1800_0000 <= full && full < 0x2000_0000 ==> cut + 0x1000_0000 <= full && full < cut
        + 0x1000_0000 + 4 && cut >= 0x800_0000) by (bit_vector)
        requires
            cut == full & 0x0fff_fffc,
    ;
}

/// The ratio that the demodulator holds after the sample rate was set is the one whose
/// rate the device reports: crystal over ratio, rounded down. It is the one for the rate
/// asked for, less than four units short, wherever 28 bits can hold that; and with the
/// nominal crystal the rate is the one asked for.
pub proof fn demodulator_samples_at_the_rate<T: Tuner>(d: Dongle<T::Model>, p: Port, rate: u32)
    requires
        set_sample_rate_run::<T>(d, p, rate).flow is Done,
    ensures
        ({
            let r = set_sample_rate_run::<T>(d, p, rate);
            let held = ratio_held(r.port.sent);
            let taken = ratio_taken(held);
            let wanted = d.rtl_xtal * 0x40_0000 / (rate as int);
            &&& is_byte(demod(r.port.sent, 1, 0x9f)) && is_byte(demod(r.port.sent, 1, 0xa0))
            &&& is_byte(demod(r.port.sent, 1, 0xa1)) && is_byte(demod(r.port.sent, 1, 0xa2))
            &&& 0 <= held < 0x1000_0000
            &&& held % 4 == 0
            &&& taken > 0 && r.state.rate < u32::MAX ==> r.state.rate * taken <= d.rtl_xtal
                * 0x40_0000 < (r.state.rate + 1) * taken
            &&& wanted < 0x800_0000 || 0x1800_0000 <= wanted < 0x2000_0000 ==> taken <= wanted
                < taken + 4
            &&& d.rtl_xtal == 28_800_000 ==> r.state.rate == rate
        }),
{
    let r = set_sample_rate_run::<T>(d, p, rate);
    ratio_reaches_the_demodulator::<T>(d, p, rate);
    sample_rate_is_kept_with_its_offset::<T>(d, p, rate);
    ratio_is_the_nearest(d.rtl_xtal, rate);
    if d.rtl_xtal == 28_800_000 {
        nominal_sample_rates_are_exact(d.rtl_xtal, rate);
    }
}

/// The number in the registers 0x19 to 0x1b of page 1, high byte first.
pub open spec fn shift_held(sent: Seq<Transfer>) -> int {
    0x1_0000 * demod(sent, 1, 0x19) + 0x100 * demod(sent, 1, 0x1a) + demod(sent, 1, 0x1b)
}

/// Whether the demodulator shifts by the intermediate frequency `freq`: the number in its
/// registers, negated in 22 bits, is the ratio of that frequency to the crystal in units
/// of 2^-22, rounded down.
pub open spec fn shifts_by(sent: Seq<Transfer>, xtal: int, freq: int) -> bool {
    let ratio = (0x40_0000 - shift_held(sent)) % 0x40_0000;
    &&& is_byte(demod(sent, 1, 0x19)) && is_byte(demod(sent, 1, 0x1a)) && is_byte(
        demod(sent, 1, 0x1b),
    )
    &&& shift_held(sent) < 0x40_0000
    &&& ratio * xtal <= freq * 0x40_0000 < (ratio + 1) * xtal
}

proof fn if_freq_bytes(before: Option<u8>, word: int, addr: int)
    requires
        0 <= word < 0x40_0000,
        0x19 <= addr <= 0x1b,
    ensures
        after_steps(before, if_freq_steps(word), Place::Demod { page: 1, addr }) == Some(
            (if addr == 0x19 {
                word / 0x1_0000
            } else if addr == 0x1a {
                (word / 0x100) % 256
            } else {
                word % 256
            }) as u8,
        ),
{
    let place = Place::Demod { page: 1, addr };
    demod_step_bytes(1, 0x19, (word / 65536) as u16, 1, place);
    demod_step_bytes(1, 0x1a, ((word / 256) % 256) as u16, 1, place);
    demod_step_bytes(1, 0x1b, (word % 256) as u16, 1, place);
    reveal_with_fuel(after_steps, 4);
}

/// Setting the intermediate frequency, once it went through, makes the demodulator shift by
/// it, for every frequency below the crystal's, corrected.
pub proof fn demodulator_shifts_by_the_frequency(p: Port, rtl_xtal: u32, corr: i32, freq: u32)
    requires
        set_if_freq_run(p, rtl_xtal, corr, freq).flow is Done,
        freq < corrected(rtl_xtal, corr),
    ensures
        shifts_by(
            set_if_freq_run(p, rtl_xtal, corr, freq).port.sent,
            corrected(rtl_xtal, corr),
            freq as int,
        ),
{
    let xtal = corrected(rtl_xtal, corr);
    let word = if_word(freq, xtal);
    let steps = if_freq_steps(word);
    if_word_holds_the_ratio(freq, xtal as u32);
    let r = set_if_freq_run(p, rtl_xtal, corr, freq);
    let (a, b, c) = (
        Place::Demod { page: 1, addr: 0x19 },
        Place::Demod { page: 1, addr: 0x1a },
        Place::Demod { page: 1, addr: 0x1b },
    );
    steps_leave_their_bytes(p, steps, a);
    steps_leave_their_bytes(p, steps, b);
    steps_leave_their_bytes(p, steps, c);
    if_freq_bytes(held_at(p.sent, a), word, 0x19);
    if_freq_bytes(held_at(p.sent, b), word, 0x1a);
    if_freq_bytes(held_at(p.sent, c), word, 0x1b);
    assert(shift_held(r.port.sent) == word);
}

/// A corrected frequency is the frequency and `ppm` parts in a million of it, rounded down,
/// as long as 32 bits hold it; without a correction it is the frequency.
pub proof fn correction_is_in_parts_per_million(val: u32, ppm: i32)
    ensures
        ppm == 0 ==> corrected(val, ppm) == val,
        0 < corrected(val, ppm) < u32::MAX ==> corrected(val, ppm) * 1_000_000 <= val * (1_000_000
            + ppm) < (corrected(val, ppm) + 1) * 1_000_000,
        ppm < -1_000_000 ==> corrected(val, ppm) == 0,
{
    if ppm < -1_000_000 {
        assert(val * (1_000_000 + ppm) <= 0) by (nonlinear_arith)
            requires
                val >= 0,
                ppm < -1_000_000,
        ;
    }
}

/// The correction of the sample clock in the registers 0x3e and 0x3f of page 1: 14 bits,
/// two's complement.
pub open spec fn clock_held(sent: Seq<Transfer>) -> int {
    let n = 256 * (demod(sent, 1, 0x3e) % 64) + demod(sent, 1, 0x3f);
    if n < 0x2000 {
        n
    } else {
        n - 0x4000
    }
}

/// Whether the sample clock is corrected by `ppm`: the number in its registers, in units of
/// 2^-24, takes off what the crystal has too much, rounded towards zero.
pub open spec fn clock_is_off_by(sent: Seq<Transfer>, ppm: int) -> bool {
    &&& is_byte(demod(sent, 1, 0x3e)) && is_byte(demod(sent, 1, 0x3f))
    &&& ppm >= 0 ==> 0 <= ppm * 0x100_0000 + clock_held(sent) * 1_000_000 < 1_000_000
    &&& ppm <= 0 ==> -1_000_000 < ppm * 0x100_0000 + clock_held(sent) * 1_000_000 <= 0
}

proof fn clock_bytes(before: Option<u8>, offset: int, addr: int)
    requires
        addr == 0x3e || addr == 0x3f,
    ensures
        after_steps(before, clock_steps(offset), Place::Demod { page: 1, addr }) == Some(
            (if addr == 0x3f {
                offset % 256
            } else {
                (offset / 256) % 64
            }) as u8,
        ),
{
    let place = Place::Demod { page: 1, addr };
    demod_step_bytes(1, 0x3f, (offset % 256) as u16, 1, place);
    demod_step_bytes(1, 0x3e, ((offset / 256) % 64) as u16, 1, place);
    reveal_with_fuel(after_steps, 3);
}

proof fn clock_number(sent: Seq<Transfer>, ppm: i32)
    requires
        -488 <= ppm <= 488,
        demod(sent, 1, 0x3e) == (clock_offset(ppm) / 256) % 64,
        demod(sent, 1, 0x3f) == clock_offset(ppm) % 256,
    ensures
        clock_is_off_by(sent, ppm as int),
{
    let offset = clock_offset(ppm);
    assert(-0x2000 <= offset < 0x2000);
    assert(clock_held(sent) == offset);
}

/// Correcting the sample clock, once it went through, corrects it by the parts in a million
/// asked for, as far as 14 bits can hold them: up to 488 either way.
pub proof fn clock_is_corrected(p: Port, ppm: i32)
    requires
        set_sample_freq_correction_run(p, ppm).flow is Done,
        -488 <= ppm <= 488,
    ensures
        clock_is_off_by(set_sample_freq_correction_run(p, ppm).port.sent, ppm as int),
{
    let offset = clock_offset(ppm);
    let (a, b) = (Place::Demod { page: 1, addr: 0x3e }, Place::Demod { page: 1, addr: 0x3f });
    steps_leave_their_bytes(p, clock_steps(offset), a);
    steps_leave_their_bytes(p, clock_steps(offset), b);
    clock_bytes(held_at(p.sent, a), offset, 0x3e);
    clock_bytes(held_at(p.sent, b), offset, 0x3f);
    clock_number(set_sample_freq_correction_run(p, ppm).port.sent, ppm);
}

/// Setting the sample rate corrects the sample clock by the correction in force.
pub proof fn rate_keeps_the_clock_corrected<T: Tuner>(d: Dongle<T::Model>, p: Port, rate: u32)
    requires
        set_sample_rate_run::<T>(d, p, rate).flow is Done,
        -488 <= d.corr <= 488,
    ensures
        clock_is_off_by(set_sample_rate_run::<T>(d, p, rate).port.sent, d.corr as int),
{
    let offset = clock_offset(d.corr);
    let r = set_sample_rate_run::<T>(d, p, rate);
    let ratio = resample_ratio(d.rtl_xtal, rate);
    let d1 = Dongle { rate: rate_of_ratio(d.rtl_xtal, ratio), ..d };
    let b = follow_rate_run::<T>(d1, p);
    let steps = rate_steps(ratio, d.corr);
    let s = steps_run(b.port, steps);
    assert forall|addr: int| addr == 0x3e || addr == 0x3f implies #[trigger] demod(
        r.port.sent,
        1,
        addr,
    ) == (if addr == 0x3f {
        offset % 256
    } else {
        (offset / 256) % 64
    }) by {
        let place = Place::Demod { page: 1, addr };
        steps_leave_their_bytes(b.port, steps, place);
        rate_steps_bytes(held_at(b.port.sent, place), ratio, d.corr, addr);
        if d.offs_freq > 0 {
            set_offset_tuning_spares::<T>(b.state, s.port, true, 1, addr);
            spared_register_stays(s.port.sent, r.port.sent, place);
        }
    }
    clock_number(r.port.sent, d.corr);
}

proof fn mode_byte(p: Port, val: u16)
    requires
        mode_run(p, val).flow is Done,
    ensures
        demod(mode_run(p, val).port.sent, 0, 0x19) == val % 256,
{
    let place = Place::Demod { page: 0, addr: 0x19 };
    let step = RegStep::Demod { page: 0, addr: 0x19, val, len: 1 };
    step_leaves_its_bytes(p, step, place);
    demod_step_bytes(0, 0x19, val, 1, place);
    assert(step.run(p) == mode_run(p, val));
}

/// Whether the demodulator gives samples rather than a counter, in bits 0 to 2 of its mode
/// register: 5 for samples, 3 for the counter.
pub open spec fn gives(sent: Seq<Transfer>, counter: bool) -> bool {
    demod(sent, 0, 0x19) % 8 == (if counter {
        3int
    } else {
        5int
    })
}

/// Whether the automatic gain of the demodulator is on, in bit 5 of its mode register.
pub open spec fn gains_by_itself(sent: Seq<Transfer>) -> bool {
    (demod(sent, 0, 0x19) / 32) % 2 == 1
}

/// Switching the automatic gain of the demodulator switches it, and the demodulator gives
/// samples.
pub proof fn automatic_gain_is_switched(p: Port, on: bool)
    requires
        mode_run(p, agc_mode(on)).flow is Done,
    ensures
        gains_by_itself(mode_run(p, agc_mode(on)).port.sent) == on,
        gives(mode_run(p, agc_mode(on)).port.sent, false),
{
    mode_byte(p, agc_mode(on));
}

/// Switching the test mode switches between the counter and samples; the automatic gain of
/// the demodulator is off then, whatever it was.
pub proof fn counter_is_switched(p: Port, on: bool)
    requires
        mode_run(p, test_mode(on)).flow is Done,
    ensures
        gives(mode_run(p, test_mode(on)).port.sent, on),
        !gains_by_itself(mode_run(p, test_mode(on)).port.sent),
{
    mode_byte(p, test_mode(on));
}

/// Switching the repeater writes no register of the demodulator but that of the switch.
pub proof fn repeater_spares_all_else(p: Port, on: bool, page: int, addr: int)
    requires
        page != 1 || addr != 0x01,
    ensures
        spares(p, set_i2c_repeater_run(p, on), Place::Demod { page, addr }),
{
    let place = Place::Demod { page, addr };
    let val: u16 = if on {
        0x18
    } else {
        0x10
    };
    demod_step_bytes(1, 0x01, val, 1, place);
    let steps = seq![RegStep::Demod { page: 1, addr: 0x01, val, len: 1 }];
    steps_spare(p, steps, place);
    reveal_with_fuel(steps_run, 2);
}

proof fn tuning_spares_all_else<T: Tuner>(
    d: Dongle<T::Model>,
    p: Port,
    freq: u32,
    bw: u32,
    page: int,
    addr: int,
)
    requires
        page != 1 || addr != 0x01,
    ensures
        d.direct_sampling == 0 ==> spares(
            p,
            set_center_freq_run::<T>(d, p, freq),
            Place::Demod { page, addr },
        ),
        spares(p, try_bw_run::<T>(d, p, bw), Place::Demod { page, addr }),
{
    let place = Place::Demod { page, addr };
    if let Some(m) = d.tuner {
        repeater_spares_all_else(p, true, page, addr);
        let o = set_i2c_repeater_run(p, true);
        let lo = (freq - d.offs_freq) as u32;
        T::leaves_the_demodulator(m, o.port, lo, bw, d.rate, 0, false, 0);
        let t = T::set_freq_run(m, o.port, lo);
        spared_demod_is_spared(o.port, t, page, addr);
        spares_in_turn(p, o, t, place);
        repeater_spares_all_else(t.port, false, page, addr);
        spares_in_turn(p, t, set_i2c_repeater_run(t.port, false), place);
        let b = T::set_bw_run(m, o.port, bw, d.rate);
        spared_demod_is_spared(o.port, b, page, addr);
        spares_in_turn(p, o, b, place);
        repeater_spares_all_else(b.port, false, page, addr);
        spares_in_turn(p, b, set_i2c_repeater_run(b.port, false), place);
    }
}

/// A demodulator whose registers 0x19 to 0x1b of page 1 stay keeps shifting by the same.
pub proof fn shift_stays(early: Seq<Transfer>, late: Seq<Transfer>, xtal: int, freq: int)
    requires
        shifts_by(early, xtal, freq),
        forall|addr: int|
            0x19 <= addr <= 0x1b ==> #[trigger] demod(late, 1, addr) == demod(early, 1, addr),
    ensures
        shifts_by(late, xtal, freq),
{
    assert(demod(late, 1, 0x19) == demod(early, 1, 0x19));
    assert(demod(late, 1, 0x1a) == demod(early, 1, 0x1a));
    assert(demod(late, 1, 0x1b) == demod(early, 1, 0x1b));
}

/// In direct sampling the demodulator tunes: setting the centre frequency, once it went
/// through, makes it shift by that frequency.
pub proof fn direct_sampling_tunes_the_demodulator<T: Tuner>(
    d: Dongle<T::Model>,
    p: Port,
    freq: u32,
)
    requires
        d.direct_sampling != 0,
        set_center_freq_run::<T>(d, p, freq).flow is Done,
        freq < corrected(d.rtl_xtal, d.corr),
    ensures
        ({
            let r = set_center_freq_run::<T>(d, p, freq);
            &&& shifts_by(r.port.sent, corrected(d.rtl_xtal, d.corr), freq as int)
            &&& r.state == (Dongle { freq, ..d })
        }),
{
    demodulator_shifts_by_the_frequency(p, d.rtl_xtal, d.corr, freq);
}

/// Offset tuning that was switched makes the demodulator shift by the offset that the
/// device then reports: 85 percent of the sample rate, or none.
pub proof fn demodulator_shifts_by_the_offset<T: Tuner>(d: Dongle<T::Model>, p: Port, on: bool)
    requires
        set_offset_tuning_run::<T>(d, p, on).flow is Done,
        tuning_floor(d.rate) < corrected(d.rtl_xtal, d.corr),
        0 < corrected(d.rtl_xtal, d.corr),
    ensures
        ({
            let r = set_offset_tuning_run::<T>(d, p, on);
            &&& shifts_by(
                r.port.sent,
                corrected(d.rtl_xtal, d.corr),
                r.state.offs_freq as int,
            )
            &&& !on ==> r.state.offs_freq == 0
            &&& on ==> 85 * d.rate - 185 < 100 * r.state.offs_freq <= 85 * d.rate
        }),
{
    let r = set_offset_tuning_run::<T>(d, p, on);
    let offset: u32 = if on {
        tuning_floor(d.rate) as u32
    } else {
        0
    };
    let bw = if on {
        (2 * offset) as u32
    } else {
        bw_in_force(d)
    };
    let i = set_if_freq_run(p, d.rtl_xtal, d.corr, offset);
    let d1 = Dongle { offs_freq: offset, ..d };
    let b = try_bw_run::<T>(d1, i.port, bw);
    demodulator_shifts_by_the_frequency(p, d.rtl_xtal, d.corr, offset);
    offset_tuning_sets_the_offset::<T>(d, p, on);
    assert forall|addr: int| 0x19 <= addr <= 0x1b implies #[trigger] demod(r.port.sent, 1, addr)
        == demod(i.port.sent, 1, addr) by {
        let place = Place::Demod { page: 1, addr };
        tuning_spares_all_else::<T>(d1, i.port, d.freq, bw, 1, addr);
        spared_register_stays(i.port.sent, b.port.sent, place);
        tuning_spares_all_else::<T>(b.state, b.port, d.freq, bw, 1, addr);
        if d.freq > offset {
            spared_register_stays(b.port.sent, r.port.sent, place);
        }
    }
    shift_stays(i.port.sent, r.port.sent, corrected(d.rtl_xtal, d.corr), offset as int);
}

/// Setting the sample rate leaves every register alone but the ratio, the correction of the
/// clock and the switch of the repeater.
pub proof fn rate_steps_spare(p: Port, ratio: u32, corr: i32, page: int, addr: int)
    requires
        page != 1 || !(0x9f <= addr <= 0xa2 || addr == 0x3e || addr == 0x3f || addr == 0x01),
    ensures
        spares(p, steps_run(p, rate_steps(ratio, corr)), Place::Demod { page, addr }),
{
    let place = Place::Demod { page, addr };
    let offset = clock_offset(corr);
    demod_step_bytes(1, 0x9f, (ratio / 65536) as u16, 2, place);
    demod_step_bytes(1, 0xa1, (ratio % 65536) as u16, 2, place);
    demod_step_bytes(1, 0x3f, (offset % 256) as u16, 1, place);
    demod_step_bytes(1, 0x3e, ((offset / 256) % 64) as u16, 1, place);
    demod_step_bytes(1, 0x01, 0x14, 1, place);
    demod_step_bytes(1, 0x01, 0x10, 1, place);
    steps_spare(p, rate_steps(ratio, corr), place);
}

/// A new correction, once it went through, is the one that the device reports and the one of
/// its sample clock.
pub proof fn new_correction_is_in_force<T: Tuner>(d: Dongle<T::Model>, p: Port, ppm: i32)
    requires
        d.corr != ppm,
        -488 <= ppm <= 488,
        set_freq_correction_run::<T>(d, p, ppm).flow is Done,
    ensures
        ({
            let r = set_freq_correction_run::<T>(d, p, ppm);
            &&& r.state == (Dongle { corr: ppm, tuner: r.state.tuner, ..d })
            &&& clock_is_off_by(r.port.sent, ppm as int)
        }),
{
    let r = set_freq_correction_run::<T>(d, p, ppm);
    let c = set_sample_freq_correction_run(p, ppm);
    clock_is_corrected(p, ppm);
    if d.freq > 0 {
        let d2 = Dongle {
            tuner: match d.tuner {
                Some(m) => Some(T::with_xtal(m, corrected(d.tun_xtal, ppm) as u32)),
                None => None,
            },
            corr: ppm,
            ..d
        };
        assert forall|addr: int| addr == 0x3e || addr == 0x3f implies #[trigger] demod(
            r.port.sent,
            1,
            addr,
        ) == demod(c.port.sent, 1, addr) by {
            set_center_freq_spares::<T>(d2, c.port, d.freq, 1, addr);
            spared_register_stays(c.port.sent, r.port.sent, Place::Demod { page: 1, addr });
        }
        assert(demod(r.port.sent, 1, 0x3e) == demod(c.port.sent, 1, 0x3e));
        assert(demod(r.port.sent, 1, 0x3f) == demod(c.port.sent, 1, 0x3f));
    }
}

/// Whether the demodulator takes its samples from an input itself, past the tuner: no
/// zero-IF mode in 0xb1 of page 1, no inversion of the spectrum in 0x15, and of the ADCs in
/// 0x08 of page 0 the in-phase one alone. It is the second input where 0x06 swaps the two.
pub open spec fn samples_directly(sent: Seq<Transfer>, second: bool) -> bool {
    &&& demod(sent, 1, 0xb1) == 0x1a
    &&& demod(sent, 1, 0x15) == 0x00
    &&& demod(sent, 0, 0x08) == 0x4d
    &&& demod(sent, 0, 0x06) == (if second {
        0x90int
    } else {
        0x80int
    })
}

/// Whether the demodulator takes its samples from the tuner. One with a low intermediate
/// frequency, as the R82XX have it, inverts the spectrum; one without has both ADCs and the
/// zero-IF mode on.
pub open spec fn samples_the_tuner(sent: Seq<Transfer>, low_if: bool) -> bool {
    &&& demod(sent, 0, 0x06) == 0x80
    &&& low_if ==> demod(sent, 1, 0x15) == 0x01
    &&& !low_if ==> demod(sent, 0, 0x08) == 0xcd && demod(sent, 1, 0xb1) == 0x1b
}

proof fn direct_bytes(p: Port, on: i32, page: int, addr: int)
    requires
        steps_run(p, direct_steps(on)).flow is Done,
        page == 1 && (addr == 0xb1 || addr == 0x15) || page == 0 && (addr == 0x08 || addr == 0x06),
    ensures
        demod(steps_run(p, direct_steps(on)).port.sent, page, addr) == (if addr == 0xb1 {
            0x1aint
        } else if addr == 0x15 {
            0x00
        } else if addr == 0x08 {
            0x4d
        } else if on > 1 {
            0x90
        } else {
            0x80
        }),
{
    let place = Place::Demod { page, addr };
    let steps = direct_steps(on);
    demod_step_bytes(1, 0xb1, 0x1a, 1, place);
    demod_step_bytes(1, 0x15, 0x00, 1, place);
    demod_step_bytes(0, 0x08, 0x4d, 1, place);
    demod_step_bytes(
        0,
        0x06,
        if on > 1 {
            0x90
        } else {
            0x80
        },
        1,
        place,
    );
    steps_leave_their_bytes(p, steps, place);
    let i: int = if addr == 0xb1 {
        0
    } else if addr == 0x15 {
        1
    } else if addr == 0x08 {
        2
    } else {
        3
    };
    last_write_stands(held_at(p.sent, place), steps, place, i);
}

proof fn tuner_input_bytes(p: Port, r82xx: bool, page: int, addr: int)
    requires
        steps_run(p, tuner_input_steps(r82xx)).flow is Done,
        page == 0 && addr == 0x06 || r82xx && page == 1 && addr == 0x15 || !r82xx && (page == 1
            && addr == 0xb1 || page == 0 && addr == 0x08),
    ensures
        demod(steps_run(p, tuner_input_steps(r82xx)).port.sent, page, addr) == (if addr == 0xb1 {
            0x1bint
        } else if addr == 0x15 {
            0x01
        } else if addr == 0x08 {
            0xcd
        } else {
            0x80
        }),
{
    let place = Place::Demod { page, addr };
    let steps = tuner_input_steps(r82xx);
    demod_step_bytes(1, 0x15, 0x01, 1, place);
    demod_step_bytes(0, 0x06, 0x80, 1, place);
    demod_step_bytes(0, 0x08, 0xcd, 1, place);
    demod_step_bytes(1, 0xb1, 0x1b, 1, place);
    steps_leave_their_bytes(p, steps, place);
    let i: int = if addr == 0x06 {
        steps.len() - 1
    } else if addr == 0xb1 {
        1
    } else {
        0
    };
    last_write_stands(held_at(p.sent, place), steps, place, i);
}

proof fn tuner_input_spares_the_shift(p: Port, r82xx: bool, addr: int)
    requires
        0x19 <= addr <= 0x1b,
    ensures
        spares(p, steps_run(p, tuner_input_steps(r82xx)), Place::Demod { page: 1, addr }),
{
    let place = Place::Demod { page: 1, addr };
    demod_step_bytes(1, 0x15, 0x01, 1, place);
    demod_step_bytes(0, 0x06, 0x80, 1, place);
    demod_step_bytes(0, 0x08, 0xcd, 1, place);
    demod_step_bytes(1, 0xb1, 0x1b, 1, place);
    steps_spare(p, tuner_input_steps(r82xx), place);
}

/// Switching direct sampling on, once it went through, makes the demodulator sample the
/// input asked for; a centre frequency that was set is then its own.
pub proof fn input_is_sampled_directly<T: Tuner>(d: Dongle<T::Model>, p: Port, on: i32)
    requires
        on != 0,
        set_direct_sampling_run::<T>(d, p, on).flow is Done,
    ensures
        ({
            let r = set_direct_sampling_run::<T>(d, p, on);
            &&& r.state == (Dongle { direct_sampling: on, tuner: r.state.tuner, ..d })
            &&& samples_directly(r.port.sent, on > 1)
            &&& 0 < d.freq < corrected(d.rtl_xtal, d.corr) ==> shifts_by(
                r.port.sent,
                corrected(d.rtl_xtal, d.corr),
                d.freq as int,
            )
        }),
{
    let r = set_direct_sampling_run::<T>(d, p, on);
    let t = power_tuner_run::<T>(d, p, false);
    let s = switch_input_run(d, t.port, on);
    let d1 = Dongle { direct_sampling: on, ..t.state };
    assert forall|page: int, addr: int|
        page == 1 && (addr == 0xb1 || addr == 0x15) || page == 0 && (addr == 0x08 || addr
            == 0x06) implies #[trigger] demod(r.port.sent, page, addr) == (if addr == 0xb1 {
        0x1aint
    } else if addr == 0x15 {
        0x00
    } else if addr == 0x08 {
        0x4d
    } else if on > 1 {
        0x90
    } else {
        0x80
    }) by {
        direct_bytes(t.port, on, page, addr);
        if d.freq > 0 {
            set_center_freq_spares::<T>(d1, s.port, d.freq, page, addr);
            spared_register_stays(s.port.sent, r.port.sent, Place::Demod { page, addr });
        }
    }
    assert(demod(r.port.sent, 1, 0xb1) == 0x1a);
    assert(demod(r.port.sent, 1, 0x15) == 0x00);
    assert(demod(r.port.sent, 0, 0x08) == 0x4d);
    if 0 < d.freq < corrected(d.rtl_xtal, d.corr) {
        direct_sampling_tunes_the_demodulator::<T>(d1, s.port, d.freq);
    }
}

/// Switching direct sampling off, once it went through, makes the demodulator sample the
/// tuner and shift by its intermediate frequency: 3.57 MHz for the R82XX, none for others.
pub proof fn tuner_is_sampled<T: Tuner>(d: Dongle<T::Model>, p: Port)
    requires
        set_direct_sampling_run::<T>(d, p, 0).flow is Done,
    ensures
        ({
            let r = set_direct_sampling_run::<T>(d, p, 0);
            let low_if = d.tuner_type == TunerType::R820T || d.tuner_type == TunerType::R828D;
            let shift: int = if low_if {
                3_570_000
            } else {
                0
            };
            &&& r.state == (Dongle { direct_sampling: 0, tuner: r.state.tuner, ..d })
            &&& samples_the_tuner(r.port.sent, low_if)
            &&& shift < corrected(d.rtl_xtal, d.corr) ==> shifts_by(
                r.port.sent,
                corrected(d.rtl_xtal, d.corr),
                shift,
            )
        }),
{
    let r = set_direct_sampling_run::<T>(d, p, 0);
    let low_if = d.tuner_type.is_r82xx_spec();
    let t = power_tuner_run::<T>(d, p, true);
    let i = set_if_freq_run(t.port, d.rtl_xtal, d.corr, tuner_if(low_if));
    let s = steps_run(i.port, tuner_input_steps(low_if));
    let d1 = Dongle { direct_sampling: 0, ..t.state };
    assert forall|page: int, addr: int| page != 1 || addr != 0x01 implies #[trigger] demod(
        r.port.sent,
        page,
        addr,
    ) == demod(s.port.sent, page, addr) by {
        if d.freq > 0 {
            tuning_spares_all_else::<T>(d1, s.port, d.freq, 0, page, addr);
            spared_register_stays(s.port.sent, r.port.sent, Place::Demod { page, addr });
        }
    }
    assert(demod(r.port.sent, 0, 0x06) == demod(s.port.sent, 0, 0x06));
    assert(demod(r.port.sent, 0, 0x08) == demod(s.port.sent, 0, 0x08));
    assert(demod(r.port.sent, 1, 0x15) == demod(s.port.sent, 1, 0x15));
    assert(demod(r.port.sent, 1, 0xb1) == demod(s.port.sent, 1, 0xb1));
    tuner_input_bytes(i.port, low_if, 0, 0x06);
    if low_if {
        tuner_input_bytes(i.port, low_if, 1, 0x15);
    } else {
        tuner_input_bytes(i.port, low_if, 0, 0x08);
        tuner_input_bytes(i.port, low_if, 1, 0xb1);
    }
    let xtal = corrected(d.rtl_xtal, d.corr);
    if tuner_if(low_if) < xtal {
        demodulator_shifts_by_the_frequency(t.port, d.rtl_xtal, d.corr, tuner_if(low_if));
        assert forall|addr: int| 0x19 <= addr <= 0x1b implies #[trigger] demod(
            r.port.sent,
            1,
            addr,
        ) == demod(i.port.sent, 1, addr) by {
            tuner_input_spares_the_shift(i.port, low_if, addr);
            spared_register_stays(i.port.sent, s.port.sent, Place::Demod { page: 1, addr });
        }
        shift_stays(i.port.sent, r.port.sent, xtal, tuner_if(low_if) as int);
    }
}

/// Whether the tuner went from `m` to `n` by an operation of its driver for the bandwidth
/// `bw`.
pub open spec fn tried_bandwidth<T: Tuner>(m: T::Model, n: T::Model, bw: u32, rate: u32) -> bool {
    exists|q: Port| n == (#[trigger] T::set_bw_run(m, q, bw, rate)).state
}

/// Whether the tuner went from `m` to `n` by an operation of its driver, which went through,
/// for the frequency `freq`.
pub open spec fn was_tuned<T: Tuner>(m: T::Model, n: T::Model, freq: int) -> bool {
    exists|q: Port|
        {
            let t = #[trigger] T::set_freq_run(m, q, freq as u32);
            t.state == n && t.flow is Done
        }
}

/// Whether the tuner went from `m` to `n` by way of the bandwidth `bw` and, where a centre
/// frequency above the offset was set, of tuning to it, lower by the offset.
pub open spec fn was_set_for<T: Tuner>(
    m: T::Model,
    n: T::Model,
    bw: u32,
    rate: u32,
    freq: u32,
    offset: u32,
) -> bool {
    if freq > offset {
        exists|k: T::Model| #[trigger]
            tried_bandwidth::<T>(m, k, bw, rate) && was_tuned::<T>(k, n, freq - offset)
    } else {
        tried_bandwidth::<T>(m, n, bw, rate)
    }
}

/// Switching offset tuning on gives the tuner a bandwidth of twice the offset, off the one
/// in force: the one that was set, or else the sample rate. A centre frequency above the
/// offset is then set anew, that much lower.
pub proof fn offset_tuning_reaches_the_tuner<T: Tuner>(
    d: Dongle<T::Model>,
    m: T::Model,
    p: Port,
    on: bool,
)
    requires
        d.tuner == Some(m),
        set_offset_tuning_run::<T>(d, p, on).flow is Done,
    ensures
        ({
            let s = set_offset_tuning_run::<T>(d, p, on).state;
            let n = s.tuner->0;
            &&& s.tuner is Some
            &&& on ==> was_set_for::<T>(
                m,
                n,
                (2 * s.offs_freq) as u32,
                d.rate,
                d.freq,
                s.offs_freq,
            )
            &&& !on && d.bw > 0 ==> was_set_for::<T>(m, n, d.bw, d.rate, d.freq, s.offs_freq)
            &&& !on && d.bw == 0 ==> was_set_for::<T>(m, n, d.rate, d.rate, d.freq, s.offs_freq)
        }),
{
    let r = set_offset_tuning_run::<T>(d, p, on);
    let offset: u32 = if on {
        tuning_floor(d.rate) as u32
    } else {
        0
    };
    let bw = if on {
        (2 * offset) as u32
    } else {
        bw_in_force(d)
    };
    let i = set_if_freq_run(p, d.rtl_xtal, d.corr, offset);
    let d1 = Dongle { offs_freq: offset, ..d };
    let b = try_bw_run::<T>(d1, i.port, bw);
    let o = set_i2c_repeater_run(i.port, true);
    let k = T::set_bw_run(m, o.port, bw, d.rate).state;
    offset_tuning_sets_the_offset::<T>(d, p, on);
    assert(b.state.tuner == Some(k));
    assert(tried_bandwidth::<T>(m, k, bw, d.rate));
    if d.freq > offset {
        let o2 = set_i2c_repeater_run(b.port, true);
        let u = T::set_freq_run(k, o2.port, (d.freq - offset) as u32);
        assert(u.flow is Done && r.state.tuner == Some(u.state));
        assert(was_tuned::<T>(k, u.state, d.freq - offset));
    }
    assert(was_set_for::<T>(m, r.state.tuner->0, bw, d.rate, d.freq, offset));
}

/// The gain of an IF stage reaches the tuner's driver as it was asked for.
pub proof fn if_gain_reaches_the_tuner<T: Tuner>(
    d: Dongle<T::Model>,
    m: T::Model,
    p: Port,
    stage: i32,
    gain: i32,
)
    requires
        d.tuner == Some(m),
        set_tuner_if_gain_run::<T>(d, p, stage, gain).flow is Done,
    ensures
        ({
            let s = set_tuner_if_gain_run::<T>(d, p, stage, gain).state;
            &&& s == (Dongle { tuner: s.tuner, ..d })
            &&& exists|q: Port|
                {
                    let g = #[trigger] T::set_if_gain_run(m, q, stage, gain);
                    g.flow is Done && s.tuner == Some(g.state)
                }
        }),
{
    let o = set_i2c_repeater_run(p, true);
    let g = T::set_if_gain_run(m, o.port, stage, gain);
    assert(g.flow is Done);
}

} // verus!
