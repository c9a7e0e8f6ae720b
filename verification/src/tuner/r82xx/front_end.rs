//! The tuner's front end: RF mux, tracking filter, inputs; and the tuner as a whole after
//! its frequency was set.

use vstd::prelude::*;

use crate::exchange::{Answer, Port};
use crate::pins::{change_stays, changes_pin, pin_becomes_an_output, pin_is_changed};
use crate::reg::GPO;
use crate::tuner::r82xx::{
    band_inputs, blog_v4_band, blog_v4_notch_off, choose_input_resumes, choose_input_run,
    every_frequency_has_a_range, freq_range_idx, lo_freq, mux_steps, r828d_input,
    r82xx_set_freq_run, set_mux_resumes, set_mux_run, switch_band_run, upconverter_run, xtal_drive,
    Chip,
};
use crate::tuner::r82xx::constants::{
    freq_range_at, R82xxChip, XtalCapValue, FREQ_RANGE_SETTINGS, FREQ_RANGE_STARTS, HF, NUM_REGS,
};
use crate::tuner::r82xx::effect::{steps_effect, steps_leave_their_effect};
use crate::tuner::r82xx::i2c::{chip_steps_resume, chip_steps_run, masked, ChipStep};
use crate::tuner::r82xx::meaning::register;
use crate::tuner::r82xx::oscillator::{
    fine_in, fine_reference, on_reference, only_divided_frequencies_are_set, oscillates_at,
    oscillator_has_the_frequency, pll_set, registers_hold_the_frequency, status_read,
};
use crate::tuner::r82xx::pll::{set_pll_resumes, set_pll_run};
use crate::usb::set_gpio_output_run;

verus! {

/// The load of the crystal that a range asks for, out of its three.
pub open spec fn load_of(set: Seq<u8>, sel: XtalCapValue) -> int {
    match sel {
        XtalCapValue::LowCap30p | XtalCapValue::LowCap20p => set[3] as int,
        XtalCapValue::LowCap10p => set[4] as int,
        XtalCapValue::LowCap0p | XtalCapValue::HighCap0p => set[5] as int,
    }
}

/// Whether the front end is set for a local oscillator of `lo` Hz: to the settings of the
/// range `i`, which it lies in.
pub open spec fn faces(regs: Seq<u8>, sel: XtalCapValue, lo: int, i: int) -> bool {
    let set = FREQ_RANGE_SETTINGS@[i]@;
    let (r1a, r10): (int, int) = (register(regs, 0x1a) as int, register(regs, 0x10) as int);
    &&& 0 <= i < 21
    &&& FREQ_RANGE_STARTS@[i] * 1_000_000 <= lo
    &&& i < 20 ==> lo < FREQ_RANGE_STARTS@[i + 1] * 1_000_000
    // RF mux and polyphase mux: bits 7, 6, 1 and 0
    &&& r1a / 64 == set[1] as int / 64
    &&& r1a % 4 == set[1] as int % 4
    // Tracking filter
    &&& register(regs, 0x1b) == set[2]
    // Crystal load in bits 1 and 0, low drive in bit 3
    &&& (r10 / 8) % 2 == (if sel == XtalCapValue::HighCap0p {
        (set[5] as int / 8) % 2
    } else {
        1
    })
    &&& r10 % 4 == load_of(set, sel) % 4
    // Image rejection cleared
    &&& register(regs, 0x08) as int % 64 == 0
    &&& register(regs, 0x09) as int % 64 == 0
}

proof fn mux_bytes(r17: u8, r1a: u8, r10: u8, r8: u8, r9: u8, open_d: u8, mux: u8, load: u8)
    ensures
        ((masked(r17, open_d, 0x08) / 8) % 2) == (open_d / 8) % 2,
        masked(r17, open_d, 0x08) % 8 == r17 % 8,
        masked(r17, open_d, 0x08) / 16 == r17 / 16,
        masked(r1a, mux, 0xc3) / 64 == mux / 64,
        masked(r1a, mux, 0xc3) % 4 == mux % 4,
        (masked(r1a, mux, 0xc3) / 4) % 16 == (r1a / 4) % 16,
        (masked(r10, load, 0x0b) / 8) % 2 == (load / 8) % 2,
        masked(r10, load, 0x0b) % 4 == load % 4,
        masked(r10, load, 0x0b) / 16 == r10 / 16,
        masked(r8, 0x00, 0x3f) % 64 == 0,
        masked(r9, 0x00, 0x3f) % 64 == 0,
{
    assert((((r17 & !0x08u8) | (open_d & 0x08)) / 8) % 2 == (open_d / 8) % 2 && ((r17 & !0x08u8) | (
    open_d & 0x08)) % 8 == r17 % 8 && ((r17 & !0x08u8) | (open_d & 0x08)) / 16 == r17 / 16 && ((r1a
        & !0xc3u8) | (mux & 0xc3)) / 64 == mux / 64 && ((r1a & !0xc3u8) | (mux & 0xc3)) % 4 == mux
        % 4 && (((r1a & !0xc3u8) | (mux & 0xc3)) / 4) % 16 == (r1a / 4) % 16 && (((r10 & !0x0bu8) | (
    load & 0x0b)) / 8) % 2 == (load / 8) % 2 && ((r10 & !0x0bu8) | (load & 0x0b)) % 4 == load % 4 && (
    (r10 & !0x0bu8) | (load & 0x0b)) / 16 == r10 / 16 && ((r8 & !0x3fu8) | (0x00u8 & 0x3f)) % 64 == 0
        && ((r9 & !0x3fu8) | (0x00u8 & 0x3f)) % 64 == 0) by (bit_vector);
}

proof fn low_drive(load: u8)
    ensures
        ((load | 0x08) / 8) % 2 == 1,
        (load | 0x08) as int % 4 == load as int % 4,
{
    assert(((load | 0x08) / 8) % 2 == 1 && (load | 0x08) % 4 == load % 4) by (bit_vector);
}

/// Whether bit 3 of register 0x17, the open drain of the notch filter, is set.
pub open spec fn open_drain(regs: Seq<u8>) -> bool {
    (register(regs, 0x17) / 8) % 2 == 1
}

/// Setting the RF mux, once it went through, sets the front end for the local oscillator.
pub proof fn front_end_faces_the_oscillator(c: Chip, p: Port, lo: u32)
    requires
        c.regs.len() == NUM_REGS,
        set_mux_run(c, p, lo).flow is Done,
    ensures
        ({
            let s = set_mux_run(c, p, lo).state;
            &&& s == (Chip { regs: s.regs, ..c })
            &&& s.regs.len() == NUM_REGS
            &&& exists|i: int|
                #[trigger] faces(s.regs, c.xtal_cap_sel, lo as int, i) && open_drain(s.regs) == ((
                FREQ_RANGE_SETTINGS@[i]@[0] / 8) % 2 == 1)
            &&& forall|reg: int|
                5 <= reg < 35 && reg != 0x08 && reg != 0x09 && reg != 0x10 && reg != 0x17 && reg
                    != 0x1a && reg != 0x1b ==> #[trigger] register(s.regs, reg) == register(
                    c.regs,
                    reg,
                )
        }),
{
    let mhz = lo as int / 1_000_000;
    every_frequency_has_a_range(mhz);
    let i = freq_range_idx(mhz);
    let range = freq_range_at(i);
    let steps = mux_steps(range, c.xtal_cap_sel);
    steps_leave_their_effect(c, p, steps);
    reveal_with_fuel(steps_effect, 7);
    mux_bytes(
        register(c.regs, 0x17),
        register(c.regs, 0x1a),
        register(c.regs, 0x10),
        register(c.regs, 0x08),
        register(c.regs, 0x09),
        range.open_d,
        range.rf_mux_ploy,
        xtal_drive(range, c.xtal_cap_sel),
    );
    low_drive(range.xtal_cap20p);
    low_drive(range.xtal_cap10p);
    low_drive(range.xtal_cap0p);
    let regs = set_mux_run(c, p, lo).state.regs;
    assert(faces(regs, c.xtal_cap_sel, lo as int, i));
}

/// The input bits of register 0x05: bit 6 the first cable, bit 5 no air.
pub open spec fn input_bits(regs: Seq<u8>) -> int {
    (register(regs, 0x05) as int / 32) % 4
}

/// Whether the second cable is switched through, in bit 3 of register 0x06.
pub open spec fn second_cable(regs: Seq<u8>) -> bool {
    (register(regs, 0x06) / 8) % 2 == 1
}

/// Whether the inputs are those of a band of the Blog V4 dongle: the second cable for the
/// first band, up to 28.8 MHz; the first cable for the second, below 250 MHz; air for the
/// third.
pub open spec fn inputs_of(regs: Seq<u8>, band: int) -> bool {
    &&& second_cable(regs) == (band == 1)
    &&& input_bits(regs) == (if band == 1 {
        1int
    } else if band == 2 {
        3int
    } else {
        0int
    })
}

/// The band of the Blog V4 dongle that `freq` lies in.
pub open spec fn band_of(freq: int) -> int {
    if freq <= 28_800_000 {
        1
    } else if freq < 250_000_000 {
        2
    } else {
        3
    }
}

/// Whether the driver's note of the input agrees with the registers. A Blog V4 dongle
/// notes the band, where it has set one; an R828D its input bits.
pub open spec fn input_is_noted(c: Chip) -> bool {
    if c.is_blog_v4 {
        1 <= c.input <= 3 ==> inputs_of(c.regs, c.input as int)
    } else {
        c.rafael_chip == R82xxChip::R828D ==> input_bits(c.regs) * 32 == c.input
    }
}

proof fn input_bytes(r5: u8, r6: u8, cable: u8, band: u8)
    requires
        1 <= band <= 3,
        cable == (if band == 1 {
            0x08u8
        } else {
            0x00u8
        }),
    ensures
        ({
            let first: u8 = if band == 2 {
                0x40
            } else {
                0x00
            };
            let air: u8 = if band == 3 {
                0x00
            } else {
                0x20
            };
            let r = masked(masked(r5, first, 0x40), air, 0x20);
            &&& (masked(r6, cable, 0x08) / 8) % 2 == (if band == 1 {
                1int
            } else {
                0int
            })
            &&& (r as int / 32) % 4 == (if band == 1 {
                1int
            } else if band == 2 {
                3int
            } else {
                0int
            })
            &&& r % 32 == r5 % 32
            &&& r / 128 == r5 / 128
        }),
{
    let first: u8 = if band == 2 {
        0x40
    } else {
        0x00
    };
    let air: u8 = if band == 3 {
        0x00
    } else {
        0x20
    };
    let a = (r5 & !0x40u8) | (first & 0x40);
    let r = (a & !0x20u8) | (air & 0x20);
    assert((((r6 & !0x08u8) | (cable & 0x08)) / 8) % 2 == (cable / 8) % 2 && (r / 32) % 4 == (first
        / 32) % 4 + (air / 32) % 4 && r % 32 == r5 % 32 && r / 128 == r5 / 128) by (bit_vector)
        requires
            a == (r5 & !0x40u8) | (first & 0x40),
            r == (a & !0x20u8) | (air & 0x20),
            first == 0x40 || first == 0x00,
            air == 0x20 || air == 0x00,
    ;
}

/// What choosing the input leaves alone.
pub open spec fn input_frame(before: Seq<u8>, after: Seq<u8>) -> bool {
    &&& after.len() == NUM_REGS
    &&& forall|reg: int|
        5 <= reg < 35 && reg != 0x05 && reg != 0x06 && reg != 0x17 ==> #[trigger] register(
            after,
            reg,
        ) == register(before, reg)
}

proof fn switch_band_effect(c: Chip, p: Port, band: u8)
    requires
        c.regs.len() == NUM_REGS,
        1 <= band <= 3,
        switch_band_run(c, p, band).flow is Done,
    ensures
        ({
            let s = switch_band_run(c, p, band).state;
            &&& s == (Chip { regs: s.regs, input: band, ..c })
            &&& input_frame(c.regs, s.regs)
            &&& inputs_of(s.regs, band as int)
            &&& register(s.regs, 0x17) == register(c.regs, 0x17)
        }),
{
    let cable_2_in: u8 = if band == HF {
        0x08
    } else {
        0x00
    };
    let cable = seq![ChipStep::Mask { reg: 0x06, val: cable_2_in, mask: 0x08 }];
    let start = Chip { input: band, ..c };
    steps_leave_their_effect(start, p, cable);
    let a = chip_steps_run(start, p, cable);
    let g = upconverter_run(a.port, band == HF);
    steps_leave_their_effect(a.state, g.port, band_inputs(band));
    reveal_with_fuel(steps_effect, 3);
    input_bytes(register(c.regs, 0x05), register(c.regs, 0x06), cable_2_in, band);
}

/// Switching the band of the Blog V4 dongle, once it went through, switches the upconverter
/// with pin 5, made an output first: low for the first band, high for the others.
pub proof fn upconverter_follows_the_band(c: Chip, p: Port, band: u8)
    requires
        c.regs.len() == NUM_REGS,
        1 <= band <= 3,
        switch_band_run(c, p, band).flow is Done,
    ensures
        ({
            let port = switch_band_run(c, p, band).port;
            let high = band != 1;
            exists|at: int|
                {
                    &&& p.sent.len() <= at
                    &&& #[trigger] changes_pin(port, at, 0x3004, 5, false)
                    &&& changes_pin(port, at + 2, 0x3003, 5, true)
                    &&& changes_pin(port, at + 4, 0x3001, 5, high)
                }
        }),
{
    let cable_2_in: u8 = if band == HF {
        0x08
    } else {
        0x00
    };
    let cable = seq![ChipStep::Mask { reg: 0x06, val: cable_2_in, mask: 0x08 }];
    let start = Chip { input: band, ..c };
    chip_steps_resume(start, p, cable, Seq::empty());
    let a = chip_steps_run(start, p, cable);
    let at = a.port.sent.len() as int;
    let o = set_gpio_output_run(a.port, 5);
    let g = upconverter_run(a.port, band == HF);
    pin_becomes_an_output(a.port, 5);
    pin_is_changed(o.port, GPO, 5, band != HF);
    change_stays(o.port, g.port, at, 0x3004, 5, false);
    change_stays(o.port, g.port, at + 2, 0x3003, 5, true);
    chip_steps_resume(a.state, g.port, band_inputs(band), Seq::empty());
    let port = switch_band_run(c, p, band).port;
    change_stays(g.port, port, at, 0x3004, 5, false);
    change_stays(g.port, port, at + 2, 0x3003, 5, true);
    change_stays(g.port, port, at + 4, 0x3001, 5, band != 1);
}

/// Choosing the input, once it went through, sets the one for the frequency: of a Blog V4
/// dongle the inputs of the band, and the notch filter off exactly in its three ranges;
/// of an R828D air above 345 MHz, cable else; of the others none. The note of the input
/// agrees with the registers as it did before.
pub proof fn input_is_that_of_the_frequency(c: Chip, p: Port, freq: u32)
    requires
        c.regs.len() == NUM_REGS,
        input_is_noted(c),
        choose_input_run(c, p, freq).flow is Done,
    ensures
        ({
            let s = choose_input_run(c, p, freq).state;
            &&& input_is_noted(s)
            &&& s == (Chip { regs: s.regs, input: s.input, ..c })
            &&& c.is_blog_v4 ==> {
                &&& inputs_of(s.regs, band_of(freq as int))
                &&& s.input == band_of(freq as int)
                &&& !open_drain(s.regs) == (freq <= 2_200_000 || 85_000_000 <= freq <= 112_000_000
                    || 172_000_000 <= freq <= 242_000_000)
            }
            &&& !c.is_blog_v4 && c.rafael_chip == R82xxChip::R828D ==> input_bits(s.regs) == (
            if freq > 345_000_000 {
                0int
            } else {
                3int
            })
            &&& !c.is_blog_v4 ==> open_drain(s.regs) == open_drain(c.regs)
            &&& !c.is_blog_v4 && c.rafael_chip != R82xxChip::R828D ==> s == c
            &&& input_frame(c.regs, s.regs)
        }),
{
    let r5 = register(c.regs, 0x05);
    let r17 = register(c.regs, 0x17);
    if c.is_blog_v4 {
        let open_d: u8 = if blog_v4_notch_off(freq) {
            0x00
        } else {
            0x08
        };
        let notch = seq![ChipStep::Mask { reg: 0x17, val: open_d, mask: 0x08 }];
        steps_leave_their_effect(c, p, notch);
        reveal_with_fuel(steps_effect, 2);
        let a = chip_steps_run(c, p, notch);
        mux_bytes(r17, 0, 0, 0, 0, open_d, 0, 0);
        if blog_v4_band(freq) != a.state.input {
            switch_band_effect(a.state, a.port, blog_v4_band(freq));
        }
    } else if c.rafael_chip == R82xxChip::R828D && r828d_input(freq) != c.input {
        let start = Chip { input: r828d_input(freq), ..c };
        let steps = seq![ChipStep::Mask { reg: 0x05, val: r828d_input(freq), mask: 0x60 }];
        steps_leave_their_effect(start, p, steps);
        reveal_with_fuel(steps_effect, 2);
        let v = r828d_input(freq);
        assert((((r5 & !0x60u8) | (v & 0x60)) / 32) % 4 == (v / 32) % 4) by (bit_vector);
    }
}

/// The frequency in Hz that the local oscillator has to have for a wanted frequency: higher
/// by the intermediate frequency; and on the Blog V4 dongle by 28.8 MHz besides, for
/// frequencies below that.
pub open spec fn oscillator_for(c: Chip, freq: u32) -> int {
    freq + c.int_freq + (if c.is_blog_v4 && freq < 28_800_000 {
        28_800_000int
    } else {
        0int
    })
}

/// Whether setting the frequency leaves a register alone.
pub open spec fn beside_the_frequency(reg: int) -> bool {
    &&& 5 <= reg < 35
    &&& reg != 0x05 && reg != 0x06 && reg != 0x08 && reg != 0x09
    &&& reg != 0x10 && reg != 0x12 && reg != 0x14 && reg != 0x15 && reg != 0x16
    &&& reg != 0x17 && reg != 0x1a && reg != 0x1b
}

/// Setting the frequency, once it went through, leaves the tuner tuned to it: the local
/// oscillator lies above it by the intermediate frequency, the front end faces the
/// oscillator, and the input is that of the frequency. The gain of the mixer and the VGA,
/// the filters and the rest stay as they were.
pub proof fn tuner_is_tuned(c: Chip, p: Port, freq: u32)
    requires
        c.regs.len() == NUM_REGS,
        input_is_noted(c),
        r82xx_set_freq_run(c, p, freq).flow is Done,
        on_reference(c, r82xx_set_freq_run(c, p, freq).port, p.sent.len() as int),
    ensures
        ({
            let s = r82xx_set_freq_run(c, p, freq).state;
            let lo = oscillator_for(c, freq);
            &&& s == (Chip { regs: s.regs, input: s.input, ..c })
            &&& s.regs.len() == NUM_REGS
            &&& oscillates_at(s.regs, c.xtal, lo)
            &&& 27_656_500 <= lo < 1_769_999_500
            &&& exists|i: int|
                #[trigger] faces(s.regs, c.xtal_cap_sel, lo, i) && (!c.is_blog_v4 ==> open_drain(
                    s.regs,
                ) == ((FREQ_RANGE_SETTINGS@[i]@[0] / 8) % 2 == 1))
            &&& input_is_noted(s)
            &&& forall|reg: int|
                beside_the_frequency(reg) ==> #[trigger] register(s.regs, reg) == register(
                    c.regs,
                    reg,
                )
            &&& c.is_blog_v4 ==> inputs_of(s.regs, band_of(freq as int)) && s.input == band_of(
                freq as int,
            ) && !open_drain(s.regs) == (freq <= 2_200_000 || 85_000_000 <= freq <= 112_000_000
                || 172_000_000 <= freq <= 242_000_000)
            &&& !c.is_blog_v4 && c.rafael_chip == R82xxChip::R828D ==> input_bits(s.regs) == (
            if freq > 345_000_000 {
                0int
            } else {
                3int
            })
        }),
{
    let lo = lo_freq(c, freq);
    let a = set_mux_run(c, p, lo);
    let l = set_pll_run(a.state, a.port, lo);
    oscillator_is_set(c, p, freq);
    let i = choose|i: int|
        #[trigger] faces(l.state.regs, c.xtal_cap_sel, lo as int, i) && open_drain(l.state.regs) == ((
        FREQ_RANGE_SETTINGS@[i]@[0] / 8) % 2 == 1);
    input_is_that_of_the_frequency(l.state, l.port, freq);
    let s = choose_input_run(l.state, l.port, freq).state;
    tuning_stays(l.state.regs, s.regs, c.xtal_cap_sel, c.xtal, lo as int, i);
    assert(s == r82xx_set_freq_run(c, p, freq).state);
    assert(lo == oscillator_for(c, freq));
    assert forall|reg: int| beside_the_frequency(reg) implies #[trigger] register(s.regs, reg)
        == register(c.regs, reg) by {
        assert(register(s.regs, reg) == register(l.state.regs, reg));
    }
}

proof fn tuning_stays(
    before: Seq<u8>,
    after: Seq<u8>,
    sel: XtalCapValue,
    xtal: u32,
    lo: int,
    i: int,
)
    requires
        input_frame(before, after),
        faces(before, sel, lo, i),
        oscillates_at(before, xtal, lo),
    ensures
        faces(after, sel, lo, i),
        oscillates_at(after, xtal, lo),
{
    assert(register(after, 0x10) == register(before, 0x10));
    assert(register(after, 0x14) == register(before, 0x14));
    assert(register(after, 0x15) == register(before, 0x15));
    assert(register(after, 0x16) == register(before, 0x16));
    assert(register(after, 0x1a) == register(before, 0x1a));
    assert(register(after, 0x1b) == register(before, 0x1b));
    assert(register(after, 0x08) == register(before, 0x08));
    assert(register(after, 0x09) == register(before, 0x09));
}

proof fn narrower_fields(a: int, b: int)
    requires
        0 <= a < 256,
        0 <= b < 256,
    ensures
        a / 16 == b / 16 ==> a / 64 == b / 64,
        a % 16 == b % 16 ==> (a / 8) % 2 == (b / 8) % 2 && a % 4 == b % 4,
{
    fields_of(a);
    fields_of(b);
}

proof fn fields_of(a: int)
    requires
        0 <= a < 256,
    ensures
        a / 64 == (a / 16) / 4,
        (a / 8) % 2 == (a % 16) / 8,
        a % 4 == (a % 16) % 4,
{
}

proof fn facing_stays(before: Seq<u8>, after: Seq<u8>, sel: XtalCapValue, lo: int, i: int)
    requires
        pll_set(before, after),
        faces(before, sel, lo, i),
    ensures
        faces(after, sel, lo, i),
        open_drain(after) == open_drain(before),
        register(after, 0x05) == register(before, 0x05),
        register(after, 0x06) == register(before, 0x06),
{
    assert(register(after, 0x05) == register(before, 0x05));
    assert(register(after, 0x06) == register(before, 0x06));
    assert(register(after, 0x17) == register(before, 0x17));
    assert(register(after, 0x1b) == register(before, 0x1b));
    assert(register(after, 0x08) == register(before, 0x08));
    assert(register(after, 0x09) == register(before, 0x09));
    let (x, y): (int, int) = (register(after, 0x1a) as int, register(before, 0x1a) as int);
    let (v, w): (int, int) = (register(after, 0x10) as int, register(before, 0x10) as int);
    assert(x / 16 == y / 16 && x % 4 == y % 4 && v % 16 == w % 16);
    narrower_fields(x, y);
    narrower_fields(v, w);
    let set = FREQ_RANGE_SETTINGS@[i]@;
    assert(y / 64 == set[1] as int / 64 && y % 4 == set[1] as int % 4);
}

proof fn oscillator_is_set(c: Chip, p: Port, freq: u32)
    requires
        c.regs.len() == NUM_REGS,
        input_is_noted(c),
        r82xx_set_freq_run(c, p, freq).flow is Done,
        on_reference(c, r82xx_set_freq_run(c, p, freq).port, p.sent.len() as int),
    ensures
        ({
            let lo = lo_freq(c, freq);
            let a = set_mux_run(c, p, lo);
            let s = set_pll_run(a.state, a.port, lo).state;
            &&& s == (Chip { regs: s.regs, ..c })
            &&& s.regs.len() == NUM_REGS
            &&& input_is_noted(s)
            &&& oscillates_at(s.regs, c.xtal, lo as int)
            &&& forall|reg: int|
                beside_the_frequency(reg) ==> #[trigger] register(s.regs, reg) == register(
                    c.regs,
                    reg,
                )
            &&& 27_656_500 <= lo < 1_769_999_500
            &&& exists|i: int|
                #[trigger] faces(s.regs, c.xtal_cap_sel, lo as int, i) && open_drain(s.regs) == ((
                FREQ_RANGE_SETTINGS@[i]@[0] / 8) % 2 == 1)
        }),
{
    let lo = lo_freq(c, freq);
    let r = r82xx_set_freq_run(c, p, freq);
    let a = set_mux_run(c, p, lo);
    set_mux_resumes(c, p, lo, Seq::empty());
    front_end_faces_the_oscillator(c, p, lo);
    let i = choose|i: int|
        #[trigger] faces(a.state.regs, c.xtal_cap_sel, lo as int, i) && open_drain(a.state.regs) == ((
        FREQ_RANGE_SETTINGS@[i]@[0] / 8) % 2 == 1);
    let l = set_pll_run(a.state, a.port, lo);
    set_pll_resumes(a.state, a.port, lo, Seq::empty());
    choose_input_resumes(l.state, l.port, freq, Seq::empty());
    only_divided_frequencies_are_set(a.state, a.port, lo);
    assert(on_reference(a.state, l.port, a.port.sent.len() as int)) by {
        assert forall|k: int|
            a.port.sent.len() <= k < l.port.sent.len() && #[trigger] l.port.sent[k] == status_read(
                c.i2c_addr,
            ) implies (l.port.replies[k] matches Answer::Received(data) ==> fine_in(data)
            == fine_reference(c.rafael_chip)) by {
            assert(r.port.sent[k] == l.port.sent[k]);
        }
    }
    registers_hold_the_frequency(a.state, a.port, lo);
    oscillator_has_the_frequency(a.state, a.port, lo);
    assert(register(a.state.regs, 0x05) == register(c.regs, 0x05));
    assert(register(a.state.regs, 0x06) == register(c.regs, 0x06));
    facing_stays(a.state.regs, l.state.regs, c.xtal_cap_sel, lo as int, i);
    assert forall|reg: int| beside_the_frequency(reg) implies #[trigger] register(l.state.regs, reg)
        == register(c.regs, reg) by {
        assert(register(l.state.regs, reg) == register(a.state.regs, reg));
    }
}

/// The code of the tracking filter for a local oscillator of `lo` Hz: the higher it lies, the
/// less of the filter is on.
pub open spec fn tracking_filter_for(lo: int) -> int {
    if lo < 50_000_000 {
        0xdf
    } else if lo < 55_000_000 {
        0xbe
    } else if lo < 60_000_000 {
        0x8b
    } else if lo < 65_000_000 {
        0x7b
    } else if lo < 70_000_000 {
        0x69
    } else if lo < 75_000_000 {
        0x58
    } else if lo < 90_000_000 {
        0x44
    } else if lo < 110_000_000 {
        0x34
    } else if lo < 140_000_000 {
        0x24
    } else if lo < 180_000_000 {
        0x14
    } else if lo < 250_000_000 {
        0x13
    } else if lo < 280_000_000 {
        0x11
    } else {
        0x00
    }
}

/// A front end that faces the oscillator has the tracking filter for it, the low pass up to
/// 310 MHz and the bypass above, and the polyphase mux for it. The open drain belongs to
/// oscillators below 75 MHz.
pub proof fn settings_follow_the_oscillator(regs: Seq<u8>, sel: XtalCapValue, lo: int, i: int)
    requires
        faces(regs, sel, lo, i),
    ensures
        register(regs, 0x1b) == tracking_filter_for(lo),
        register(regs, 0x1a) as int / 64 == (if lo < 310_000_000 {
            0int
        } else {
            1int
        }),
        register(regs, 0x1a) as int % 4 == (if lo < 310_000_000 {
            2int
        } else if lo < 588_000_000 {
            1int
        } else {
            0int
        }),
        (FREQ_RANGE_SETTINGS@[i]@[0] / 8) % 2 == 1 <==> lo < 75_000_000,
        sel == XtalCapValue::HighCap0p ==> register(regs, 0x10) as int % 4 == 0 && (register(
            regs,
            0x10,
        ) / 8) % 2 == 0,
{
}

} // verus!
