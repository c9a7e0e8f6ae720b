//! The R82XX driver leaves the demodulator alone, the switch of the I2C repeater with it:
//! it speaks to the tuner and, on the Blog V4 dongle, to the GPIO pins.

use vstd::prelude::*;

use crate::exchange::{Flow, Port};
use crate::reg::{Block, GPD, GPO, GPOE};
use crate::repeater::{spared_is_untouched, untouched};
use crate::tuner::r82xx::{
    band_inputs, blog_v4_band, blog_v4_notch_off, calibrate_run, calibration_opening,
    calibration_pll_run, calibration_result_run, calibration_trigger, calibrations_run,
    choose_input_run, freq_range_idx, lo_freq, mux_steps, r828d_input, r82xx_init_run,
    r82xx_set_freq_run, set_mux_run, set_tv_standard_run, switch_band_run, sysfreq_closing,
    sysfreq_opening, sysfreq_sel_run, tv_closing, tv_closing_run, tv_opening, upconverter_run,
    with_init_values, Chip, FILT_CAL_LO,
};
use crate::tuner::r82xx::bandwidth::{band_plan, band_steps, r82xx_set_bw_run};
use crate::tuner::r82xx::constants::{freq_range_at, XtalCapValue, HF, NUM_REGS, R82XX_INIT_ARRAY};
use crate::tuner::r82xx::gain::{auto_off_steps, gain_rung, gain_steps, r82xx_set_gain_run};
use crate::tuner::r82xx::i2c::{
    cached, chip_steps_run, chunk_size, masked, messages_run, read_run, write_reg_mask_run,
    write_run, ChipStep,
};
use crate::tuner::r82xx::pll::{
    divided_run, divider, divider_number, in_khz, lock_run, pll_regs, pll_shadow, pll_word,
    program_run, second_look_run, set_pll_run, tuned_number,
};
use crate::usb::{i2c_write_run, pin_run, read_reg_run, set_gpio_output_run};
use crate::wire::{spares_demod, spares_demod_in_turn};

verus! {

proof fn messages_leave_it(
    p: Port,
    i2c_addr: u8,
    max_msg_len: nat,
    reg: int,
    val: Seq<u8>,
)
    ensures
        spares_demod(p, messages_run(p, i2c_addr, max_msg_len, reg, val)),
    decreases val.len(),
{
    if val.len() > 0 {
        let size = chunk_size(val.len(), max_msg_len, (NUM_REGS + 1) as nat);
        let data = seq![reg as u8] + val.take(size as int);
        let w = i2c_write_run(p, i2c_addr, data);
        assert(spares_demod(p, w));
        messages_leave_it(w.port, i2c_addr, max_msg_len, reg + size, val.skip(size as int));
        spares_demod_in_turn(
            p,
            w,
            messages_run(w.port, i2c_addr, max_msg_len, reg + size, val.skip(size as int)),
        );
    }
}

/// Writing registers writes nothing in the demodulator, and so does not switch the
/// repeater.
pub proof fn write_leaves_it(c: Chip, p: Port, reg: u8, val: Seq<u8>)
    ensures
        spares_demod(p, write_run(c, p, reg, val)),
        untouched(p, write_run(c, p, reg, val)),
{
    messages_leave_it(p, c.i2c_addr, c.max_i2c_msg_len, reg as int, val);
    spared_is_untouched(p, write_run(c, p, reg, val));
}

/// Reading registers writes nothing in the demodulator, and so does not switch the
/// repeater.
pub proof fn read_leaves_it(c: Chip, p: Port, reg: u8, len: nat)
    ensures
        spares_demod(p, read_run(c, p, reg, len)),
        untouched(p, read_run(c, p, reg, len)),
{
    spared_is_untouched(p, read_run(c, p, reg, len));
}

proof fn step_leaves_it(c: Chip, p: Port, step: ChipStep)
    ensures
        spares_demod(p, step.run(c, p)),
{
    match step {
        ChipStep::Put { reg, val } => {
            write_leaves_it(c, p, reg, seq![val]);
        },
        ChipStep::Mask { reg, val, mask } => {
            masked_write_leaves_it(c, p, reg, val, mask);
        },
    }
}

proof fn masked_write_leaves_it(c: Chip, p: Port, reg: u8, val: u8, mask: u8)
    ensures
        spares_demod(p, write_reg_mask_run(c, p, reg, val, mask)),
{
    if let Some(old_val) = cached(c.regs, reg) {
        write_leaves_it(c, p, reg, seq![masked(old_val, val, mask)]);
    }
}

/// A sequence of register writes writes nothing in the demodulator, and so does not switch the
/// repeater.
pub proof fn steps_leave_it(c: Chip, p: Port, steps: Seq<ChipStep>)
    ensures
        spares_demod(p, chip_steps_run(c, p, steps)),
        untouched(p, chip_steps_run(c, p, steps)),
    decreases steps.len(),
{
    if steps.len() > 0 {
        step_leaves_it(c, p, steps[0]);
        let s = steps[0].run(c, p);
        steps_leave_it(s.state, s.port, steps.drop_first());
        spares_demod_in_turn(p, s, chip_steps_run(s.state, s.port, steps.drop_first()));
    }
    spared_is_untouched(p, chip_steps_run(c, p, steps));
}

proof fn second_look_leaves_it(c: Chip, p: Port, freq: u32)
    ensures
        spares_demod(p, second_look_run(c, p, freq)),
{
    read_leaves_it(c, p, 0x00, 3);
    let f = read_run(c, p, 0x00, 3);
    masked_write_leaves_it(c, f.port, 0x1a, 0x08, 0x08);
    spares_demod_in_turn(p, f, write_reg_mask_run(c, f.port, 0x1a, 0x08, 0x08));
}

proof fn lock_leaves_it(c: Chip, p: Port, freq: u32)
    ensures
        spares_demod(p, lock_run(c, p, freq)),
{
    read_leaves_it(c, p, 0x00, 3);
    let f = read_run(c, p, 0x00, 3);
    masked_write_leaves_it(c, f.port, 0x1a, 0x08, 0x08);
    spares_demod_in_turn(p, f, write_reg_mask_run(c, f.port, 0x1a, 0x08, 0x08));
    masked_write_leaves_it(c, f.port, 0x12, 0x60, 0xe0);
    let w = write_reg_mask_run(c, f.port, 0x12, 0x60, 0xe0);
    spares_demod_in_turn(p, f, w);
    second_look_leaves_it(w.state, w.port, freq);
    spares_demod_in_turn(p, w, second_look_run(w.state, w.port, freq));
}

proof fn program_leaves_it(c: Chip, p: Port, freq: u32, n: int, status: u8)
    ensures
        spares_demod(p, program_run(c, p, freq, n, status)),
{
    let word = pll_word(c.xtal, freq, divider(n));
    let regs = pll_regs(pll_shadow(c), tuned_number(c.rafael_chip, n, status), word);
    write_leaves_it(c, p, 0x10, regs);
    let w = write_run(c, p, 0x10, regs);
    lock_leaves_it(w.state, w.port, freq);
    spares_demod_in_turn(p, w, lock_run(w.state, w.port, freq));
}

/// Setting the PLL writes nothing in the demodulator, and so does not switch the
/// repeater.
pub proof fn set_pll_leaves_it(c: Chip, p: Port, freq: u32)
    ensures
        spares_demod(p, set_pll_run(c, p, freq)),
        untouched(p, set_pll_run(c, p, freq)),
{
    masked_write_leaves_it(c, p, 0x1a, 0x00, 0x0c);
    let a = write_reg_mask_run(c, p, 0x1a, 0x00, 0x0c);
    if let Some(n) = divider_number(in_khz(freq)) {
        read_leaves_it(a.state, a.port, 0x00, 5);
        let f = read_run(a.state, a.port, 0x00, 5);
        if let Flow::Done(data) = f.flow {
            program_leaves_it(a.state, f.port, freq, n, data[4]);
            spares_demod_in_turn(
                a.port,
                f,
                program_run(a.state, f.port, freq, n, data[4]),
            );
        }
        spares_demod_in_turn(p, a, divided_run(a.state, a.port, freq, n));
    }
    spared_is_untouched(p, set_pll_run(c, p, freq));
}

proof fn sysfreq_sel_leaves_it(c: Chip, p: Port)
    ensures
        spares_demod(p, sysfreq_sel_run(c, p)),
{
    let opening = sysfreq_opening(c.use_predetect);
    steps_leave_it(c, p, opening);
    let a = chip_steps_run(c, p, opening);
    let chip = Chip { input: 0, ..a.state };
    steps_leave_it(chip, a.port, sysfreq_closing());
    spares_demod_in_turn(p, a, chip_steps_run(chip, a.port, sysfreq_closing()));
}

proof fn calibrate_leaves_it(c: Chip, p: Port)
    ensures
        spares_demod(p, calibrate_run(c, p)),
{
    steps_leave_it(c, p, calibration_opening());
    let a = chip_steps_run(c, p, calibration_opening());
    set_pll_leaves_it(a.state, a.port, FILT_CAL_LO);
    let l = calibration_pll_run(a.state, a.port);
    spares_demod_in_turn(p, a, l);
    steps_leave_it(l.state, l.port, calibration_trigger());
    let t = chip_steps_run(l.state, l.port, calibration_trigger());
    read_leaves_it(t.state, t.port, 0x00, 5);
    let f = read_run(t.state, t.port, 0x00, 5);
    spares_demod_in_turn(l.port, t, f);
    spares_demod_in_turn(p, l, calibration_result_run(l.state, l.port));
}

proof fn set_tv_standard_leaves_it(c: Chip, p: Port)
    ensures
        spares_demod(p, set_tv_standard_run(c, p)),
{
    let start = Chip { regs: with_init_values(c.regs), ..c };
    steps_leave_it(start, p, tv_opening());
    let a = chip_steps_run(start, p, tv_opening());
    let chip = Chip { int_freq: 3_570_000, ..a.state };
    calibrate_leaves_it(chip, a.port);
    let first = calibrate_run(chip, a.port);
    calibrate_leaves_it(first.state, first.port);
    spares_demod_in_turn(a.port, first, calibrate_run(first.state, first.port));
    let k = calibrations_run(chip, a.port);
    spares_demod_in_turn(p, a, k);
    let kept = Chip {
        fil_cal_code: if k.state.fil_cal_code == 0x0f {
            0
        } else {
            k.state.fil_cal_code
        },
        ..k.state
    };
    steps_leave_it(kept, k.port, tv_closing(kept.fil_cal_code));
    spares_demod_in_turn(p, k, tv_closing_run(k.state, k.port));
}

/// Initialising the tuner writes nothing in the demodulator, and so does not switch the
/// repeater.
pub proof fn init_leaves_it(c: Chip, p: Port)
    ensures
        spares_demod(p, r82xx_init_run(c, p)),
        untouched(p, r82xx_init_run(c, p)),
{
    let start = Chip {
        xtal_cap_sel: XtalCapValue::HighCap0p,
        regs: Seq::new(NUM_REGS as nat, |k: int| 0u8),
        ..c
    };
    write_leaves_it(start, p, 0x05, R82XX_INIT_ARRAY@);
    let a = write_run(start, p, 0x05, R82XX_INIT_ARRAY@);
    set_tv_standard_leaves_it(a.state, a.port);
    let t = set_tv_standard_run(a.state, a.port);
    spares_demod_in_turn(p, a, t);
    sysfreq_sel_leaves_it(t.state, t.port);
    spares_demod_in_turn(p, t, sysfreq_sel_run(t.state, t.port));
    spared_is_untouched(p, r82xx_init_run(c, p));
}

proof fn pin_leaves_it(p: Port, addr: u16, gpio: u8, on: bool)
    ensures
        spares_demod(p, pin_run(p, addr, gpio, on)),
{
    let f = read_reg_run(p, Block::Sys, addr);
}

proof fn upconverter_leaves_it(p: Port, on: bool)
    ensures
        spares_demod(p, upconverter_run(p, on)),
{
    pin_leaves_it(p, GPD, 5, false);
    let d = pin_run(p, GPD, 5, false);
    pin_leaves_it(d.port, GPOE, 5, true);
    spares_demod_in_turn(p, d, pin_run(d.port, GPOE, 5, true));
    let g = set_gpio_output_run(p, 5);
    pin_leaves_it(g.port, GPO, 5, !on);
    spares_demod_in_turn(p, g, pin_run(g.port, GPO, 5, !on));
}

proof fn switch_band_leaves_it(c: Chip, p: Port, band: u8)
    ensures
        spares_demod(p, switch_band_run(c, p, band)),
{
    let cable_2_in: u8 = if band == HF {
        0x08
    } else {
        0x00
    };
    let cable = seq![ChipStep::Mask { reg: 0x06, val: cable_2_in, mask: 0x08 }];
    let start = Chip { input: band, ..c };
    steps_leave_it(start, p, cable);
    let a = chip_steps_run(start, p, cable);
    upconverter_leaves_it(a.port, band == HF);
    let g = upconverter_run(a.port, band == HF);
    spares_demod_in_turn(p, a, g);
    steps_leave_it(a.state, g.port, band_inputs(band));
    spares_demod_in_turn(p, g, chip_steps_run(a.state, g.port, band_inputs(band)));
}

proof fn choose_input_leaves_it(c: Chip, p: Port, freq: u32)
    ensures
        spares_demod(p, choose_input_run(c, p, freq)),
{
    let open_d: u8 = if blog_v4_notch_off(freq) {
        0x00
    } else {
        0x08
    };
    let notch = seq![ChipStep::Mask { reg: 0x17, val: open_d, mask: 0x08 }];
    steps_leave_it(c, p, notch);
    let a = chip_steps_run(c, p, notch);
    switch_band_leaves_it(a.state, a.port, blog_v4_band(freq));
    spares_demod_in_turn(p, a, switch_band_run(a.state, a.port, blog_v4_band(freq)));
    steps_leave_it(
        Chip { input: r828d_input(freq), ..c },
        p,
        seq![ChipStep::Mask { reg: 0x05, val: r828d_input(freq), mask: 0x60 }],
    );
}

/// Setting the frequency writes nothing in the demodulator, and so does not switch the
/// repeater.
pub proof fn set_freq_leaves_it(c: Chip, p: Port, freq: u32)
    ensures
        spares_demod(p, r82xx_set_freq_run(c, p, freq)),
        untouched(p, r82xx_set_freq_run(c, p, freq)),
{
    let lo = lo_freq(c, freq);
    let range = freq_range_at(freq_range_idx(lo as int / 1_000_000));
    steps_leave_it(c, p, mux_steps(range, c.xtal_cap_sel));
    let a = set_mux_run(c, p, lo);
    set_pll_leaves_it(a.state, a.port, lo);
    let l = set_pll_run(a.state, a.port, lo);
    spares_demod_in_turn(p, a, l);
    choose_input_leaves_it(l.state, l.port, freq);
    spares_demod_in_turn(p, l, choose_input_run(l.state, l.port, freq));
    spared_is_untouched(p, r82xx_set_freq_run(c, p, freq));
}

/// Setting the bandwidth writes nothing in the demodulator, and so does not switch the
/// repeater.
pub proof fn set_bw_leaves_it(c: Chip, p: Port, bw: u32)
    ensures
        spares_demod(p, r82xx_set_bw_run(c, p, bw)),
        untouched(p, r82xx_set_bw_run(c, p, bw)),
{
    let plan = band_plan((bw as i32) as int);
    steps_leave_it(Chip { int_freq: plan.int_freq, ..c }, p, band_steps(plan));
    spared_is_untouched(p, r82xx_set_bw_run(c, p, bw));
}

/// Setting the gain writes nothing in the demodulator, and so does not switch the
/// repeater.
pub proof fn set_gain_leaves_it(c: Chip, p: Port, gain: i32)
    ensures
        spares_demod(p, r82xx_set_gain_run(c, p, gain)),
        untouched(p, r82xx_set_gain_run(c, p, gain)),
{
    steps_leave_it(c, p, auto_off_steps());
    let a = chip_steps_run(c, p, auto_off_steps());
    read_leaves_it(a.state, a.port, 0x00, 4);
    let f = read_run(a.state, a.port, 0x00, 4);
    spares_demod_in_turn(p, a, f);
    let steps = gain_steps(gain_rung(gain as int));
    steps_leave_it(a.state, f.port, steps);
    spares_demod_in_turn(p, f, chip_steps_run(a.state, f.port, steps));
    spared_is_untouched(p, r82xx_set_gain_run(c, p, gain));
}

} // verus!
