//! The I2C repeater in the operations of a device.
//!
//! Every operation takes the repeater to be off when it starts, speaks to the tuner
//! only while it is on, and leaves it off.

use vstd::prelude::*;

use crate::device::frequency::{
    bw_in_force, change_bw_run, follow_bw_run, follow_rate_run, lifted, rate_of_ratio, rate_steps,
    resample_ratio, retune_run, set_center_freq_run, set_freq_correction_run,
    set_offset_tuning_run, set_sample_rate_run, set_tuner_bandwidth_run, try_bw_run, tuning_floor,
};
use crate::device::gain::{
    mode_run, set_tuner_gain_mode_run, set_tuner_gain_run, set_tuner_if_gain_run,
};
use crate::device::sampling::{
    direct_steps, power_tuner_run, reset_buffer_steps, set_bias_tee_run, set_direct_sampling_run,
    switch_input_run, tuner_if, tuner_input_steps,
};
use crate::device::{
    clock_offset, clock_steps, corrected, if_freq_steps, if_word, set_if_freq_run,
    set_sample_freq_correction_run, Dongle,
};
use crate::exchange::{goes_on, Flow, Port, Run, Transfer};
use crate::reg::{Block, GPD, GPO, GPOE};
use crate::repeater::{
    block_is_not_the_switch, heard, heard_in_turn, repeater_on, switched, untouched,
    untouched_in_turn, untouched_is_heard,
};
use crate::tuner::Tuner;
use crate::usb::{
    demod_value, demod_write_index, demod_write_reg_run, pin_run, read_reg_run, reg_bytes,
    set_i2c_repeater_run, steps_run, with_pin, RegStep,
};

verus! {

/// Whether a run speaks to the tuner only while the repeater is on and, once it went
/// through, leaves the repeater off that was off.
pub open spec fn minds_the_repeater<S, A>(p: Port, r: Run<S, A>) -> bool {
    &&& goes_on(p.sent, r.port.sent)
    &&& heard(r.port.sent, p.sent.len() as int)
    &&& !repeater_on(p.sent) && r.flow is Done ==> !repeater_on(r.port.sent)
}

/// One run after another that went through, each minding the repeater, mind it as a
/// whole.
pub proof fn minds_in_turn<S, A, T, B>(p: Port, a: Run<S, A>, b: Run<T, B>)
    requires
        minds_the_repeater(p, a),
        a.flow is Done,
        minds_the_repeater(a.port, b),
    ensures
        minds_the_repeater(p, b),
{
    joined(p.sent, a.port.sent, b.port.sent);
}

proof fn joined(first: Seq<Transfer>, second: Seq<Transfer>, third: Seq<Transfer>)
    requires
        goes_on(first, second),
        goes_on(second, third),
        heard(second, first.len() as int),
        heard(third, second.len() as int),
    ensures
        goes_on(first, third),
        heard(third, first.len() as int),
{
    assert forall|i: int| 0 <= i < first.len() implies first[i] == #[trigger] third[i] by {
        assert(second[i] == third[i]);
    }
    heard_in_turn(second, third, first.len() as int);
}

/// Whether a register write does not switch the repeater on.
pub open spec fn is_quiet(step: RegStep) -> bool {
    match step {
        RegStep::Demod { addr, val, .. } => addr % 256 != 0x01 || (val / 8) % 2 == 0,
        RegStep::Block { block, .. } => block != Block::Iic,
    }
}

proof fn one_more(sent: Seq<Transfer>, t: Transfer)
    ensures
        repeater_on(sent.push(t)) == (match switched(t) {
            Some(on) => on,
            None => repeater_on(sent),
        }),
{
    assert(sent.push(t).drop_last() =~= sent);
}

proof fn demod_write_ends(p: Port, page: u8, addr: u16, val: u16, len: u8)
    requires
        len <= 2,
    ensures
        ({
            let r = demod_write_reg_run(p, page, addr, val, len);
            let t = Transfer::Out {
                value: demod_value(addr),
                index: demod_write_index(page),
                data: reg_bytes(val, len as nat),
            };
            &&& goes_on(p.sent, r.port.sent)
            &&& heard(r.port.sent, p.sent.len() as int)
            &&& switched(t) is None ==> untouched(p, r)
            &&& r.flow is Done ==> repeater_on(r.port.sent) == (match switched(t) {
                Some(on) => on,
                None => repeater_on(p.sent),
            })
        }),
{
    let r = demod_write_reg_run(p, page, addr, val, len);
    let end = r.port.sent;
    let t = end[p.sent.len() as int];
    assert(demod_write_index(page) < 256) by {
        let wide: u16 = page as u16;
        assert(0x10u16 | wide < 256) by (bit_vector)
            requires
                wide < 256,
        ;
    }
    one_more(p.sent, t);
    if r.flow is Done {
        one_more(p.sent.push(t), end.last());
        assert(end =~= p.sent.push(t).push(end.last()));
    }
}

/// Switching the repeater, once it went through, leaves it as it was switched,
/// whatever came before.
pub proof fn switch_takes_effect(p: Port, on: bool)
    ensures
        ({
            let r = set_i2c_repeater_run(p, on);
            &&& goes_on(p.sent, r.port.sent)
            &&& heard(r.port.sent, p.sent.len() as int)
            &&& r.flow is Done ==> repeater_on(r.port.sent) == on
        }),
{
    let val: u16 = if on {
        0x18
    } else {
        0x10
    };
    demod_write_ends(p, 1, 0x01, val, 1);
}

proof fn with_repeater_on<S, A>(p: Port, t: Run<S, A>)
    requires
        set_i2c_repeater_run(p, true).flow is Done,
        untouched(set_i2c_repeater_run(p, true).port, t),
    ensures
        goes_on(p.sent, t.port.sent),
        heard(t.port.sent, p.sent.len() as int),
        ({
            let c = set_i2c_repeater_run(t.port, false);
            &&& goes_on(p.sent, c.port.sent)
            &&& heard(c.port.sent, p.sent.len() as int)
            &&& c.flow is Done ==> !repeater_on(c.port.sent)
        }),
{
    let o = set_i2c_repeater_run(p, true);
    switch_takes_effect(p, true);
    untouched_is_heard(o.port, t);
    joined(p.sent, o.port.sent, t.port.sent);
    let c = set_i2c_repeater_run(t.port, false);
    switch_takes_effect(t.port, false);
    joined(p.sent, t.port.sent, c.port.sent);
}

proof fn quiet_step_minds(p: Port, step: RegStep)
    requires
        is_quiet(step),
        step.fits(),
    ensures
        minds_the_repeater(p, step.run(p)),
{
    match step {
        RegStep::Block { block, addr, val, len } => {
            let data = reg_bytes(val, len as nat);
            block_is_not_the_switch(block, addr, data);
            one_more(p.sent, step.run(p).port.sent.last());
        },
        RegStep::Demod { page, addr, val, len } => {
            demod_write_ends(p, page, addr, val, len);
        },
    }
}

/// Register writes none of which switches the repeater on mind it.
pub proof fn quiet_steps_mind(p: Port, steps: Seq<RegStep>)
    requires
        forall|i: int| 0 <= i < steps.len() ==> is_quiet(#[trigger] steps[i]) && steps[i].fits(),
    ensures
        minds_the_repeater(p, steps_run(p, steps)),
    decreases steps.len(),
{
    if steps.len() > 0 {
        quiet_step_minds(p, steps[0]);
        let s = steps[0].run(p);
        if s.flow is Done {
            quiet_steps_mind(s.port, steps.drop_first());
            minds_in_turn(p, s, steps_run(s.port, steps.drop_first()));
        }
    }
}

proof fn demod_steps_leave_it(p: Port, steps: Seq<RegStep>)
    requires
        forall|i: int|
            0 <= i < steps.len() ==> (#[trigger] steps[i] matches RegStep::Demod { addr, len, .. }
                && addr % 256 != 0x01 && len <= 2),
    ensures
        untouched(p, steps_run(p, steps)),
    decreases steps.len(),
{
    if steps.len() > 0 {
        let s = steps[0].run(p);
        if let RegStep::Demod { page, addr, val, len } = steps[0] {
            demod_write_ends(p, page, addr, val, len);
        }
        demod_steps_leave_it(s.port, steps.drop_first());
        untouched_in_turn(p, s, steps_run(s.port, steps.drop_first()));
    }
}

proof fn if_freq_minds(p: Port, rtl_xtal: u32, corr: i32, freq: u32)
    ensures
        minds_the_repeater(p, set_if_freq_run(p, rtl_xtal, corr, freq)),
        untouched(p, set_if_freq_run(p, rtl_xtal, corr, freq)),
{
    let steps = if_freq_steps(if_word(freq, corrected(rtl_xtal, corr)));
    quiet_steps_mind(p, steps);
    demod_steps_leave_it(p, steps);
}

/// Setting the centre frequency minds the repeater.
pub proof fn set_center_freq_minds<T: Tuner>(d: Dongle<T::Model>, p: Port, freq: u32)
    ensures
        minds_the_repeater(p, set_center_freq_run::<T>(d, p, freq)),
{
    if_freq_minds(p, d.rtl_xtal, d.corr, freq);
    if let Some(m) = d.tuner {
        let o = set_i2c_repeater_run(p, true);
        switch_takes_effect(p, true);
        let lo = (freq - d.offs_freq) as u32;
        T::leaves_the_repeater(m, o.port, lo, 0, 0, 0, false, 0);
        if o.flow is Done {
            with_repeater_on(p, T::set_freq_run(m, o.port, lo));
        }
    }
}

/// Correcting the crystals minds the repeater.
pub proof fn set_freq_correction_minds<T: Tuner>(d: Dongle<T::Model>, p: Port, ppm: i32)
    ensures
        minds_the_repeater(p, set_freq_correction_run::<T>(d, p, ppm)),
{
    quiet_steps_mind(p, clock_steps(clock_offset(ppm)));
    let s = set_sample_freq_correction_run(p, ppm);
    let d2 = Dongle {
        corr: ppm,
        tuner: match d.tuner {
            Some(m) => Some(T::with_xtal(m, corrected(d.tun_xtal, ppm) as u32)),
            None => None,
        },
        ..d
    };
    set_center_freq_minds::<T>(d2, s.port, d.freq);
    if s.flow is Done {
        minds_in_turn(p, s, set_center_freq_run::<T>(d2, s.port, d.freq));
    }
}

/// Setting a gain or the gain mode minds the repeater.
pub proof fn gain_operations_mind<T: Tuner>(
    d: Dongle<T::Model>,
    p: Port,
    gain: i32,
    manual: bool,
    stage: i32,
)
    ensures
        minds_the_repeater(p, set_tuner_gain_run::<T>(d, p, gain)),
        minds_the_repeater(p, set_tuner_gain_mode_run::<T>(d, p, manual)),
        minds_the_repeater(p, set_tuner_if_gain_run::<T>(d, p, stage, gain)),
{
    if let Some(m) = d.tuner {
        let o = set_i2c_repeater_run(p, true);
        switch_takes_effect(p, true);
        T::leaves_the_repeater(m, o.port, 0, 0, 0, gain, manual, stage);
        if o.flow is Done {
            with_repeater_on(p, T::set_gain_run(m, o.port, gain));
            with_repeater_on(p, T::set_gain_mode_run(m, o.port, manual));
            with_repeater_on(p, T::set_if_gain_run(m, o.port, stage, gain));
        }
    }
}

/// Where the tuner refuses a frequency or a gain, the repeater is switched off
/// nonetheless: it is off unless that switch failed.
pub proof fn refusal_closes_the_repeater<T: Tuner>(
    d: Dongle<T::Model>,
    m: T::Model,
    p: Port,
    freq: u32,
    gain: i32,
)
    requires
        d.tuner == Some(m),
        set_i2c_repeater_run(p, true).flow is Done,
    ensures
        ({
            let t = T::set_freq_run(
                m,
                set_i2c_repeater_run(p, true).port,
                (freq - d.offs_freq) as u32,
            );
            d.direct_sampling == 0 && d.offs_freq <= freq && t.flow is Failed
                && set_i2c_repeater_run(t.port, false).flow is Done ==> !repeater_on(
                set_center_freq_run::<T>(d, p, freq).port.sent,
            )
        }),
        ({
            let g = T::set_gain_run(m, set_i2c_repeater_run(p, true).port, gain);
            g.flow is Failed && set_i2c_repeater_run(g.port, false).flow is Done ==> !repeater_on(
                set_tuner_gain_run::<T>(d, p, gain).port.sent,
            )
        }),
{
    let o = set_i2c_repeater_run(p, true);
    let t = T::set_freq_run(m, o.port, (freq - d.offs_freq) as u32);
    let g = T::set_gain_run(m, o.port, gain);
    if set_i2c_repeater_run(t.port, false).flow is Done {
        switch_takes_effect(t.port, false);
    }
    if set_i2c_repeater_run(g.port, false).flow is Done {
        switch_takes_effect(g.port, false);
    }
}

proof fn try_bw_minds<T: Tuner>(d: Dongle<T::Model>, p: Port, bw: u32)
    ensures
        minds_the_repeater(p, try_bw_run::<T>(d, p, bw)),
{
    if let Some(m) = d.tuner {
        let o = set_i2c_repeater_run(p, true);
        switch_takes_effect(p, true);
        T::leaves_the_repeater(m, o.port, 0, bw, d.rate, 0, false, 0);
        if o.flow is Done {
            with_repeater_on(p, T::set_bw_run(m, o.port, bw, d.rate));
        }
    }
}

/// Switching offset tuning minds the repeater.
pub proof fn set_offset_tuning_minds<T: Tuner>(d: Dongle<T::Model>, p: Port, on: bool)
    ensures
        minds_the_repeater(p, set_offset_tuning_run::<T>(d, p, on)),
{
    let offset: u32 = if on {
        tuning_floor(d.rate) as u32
    } else {
        0
    };
    let bw = if on {
        (2 * offset) as u32
    } else {
        bw_in_force(d)
    };
    if_freq_minds(p, d.rtl_xtal, d.corr, offset);
    let i = set_if_freq_run(p, d.rtl_xtal, d.corr, offset);
    let d1 = Dongle { offs_freq: offset, ..d };
    try_bw_minds::<T>(d1, i.port, bw);
    let b = try_bw_run::<T>(d1, i.port, bw);
    if i.flow is Done {
        minds_in_turn(p, i, b);
        if b.flow is Done {
            set_center_freq_minds::<T>(b.state, b.port, d.freq);
            minds_in_turn(p, b, set_center_freq_run::<T>(b.state, b.port, d.freq));
        }
    }
}

proof fn follow_bw_leaves_it<T: Tuner>(d: Dongle<T::Model>, m: T::Model, p: Port, if_freq: u32)
    ensures
        untouched(p, follow_bw_run::<T>(d, m, p, if_freq)),
{
    if_freq_minds(p, d.rtl_xtal, d.corr, if_freq);
    let i = set_if_freq_run(p, d.rtl_xtal, d.corr, if_freq);
    let lo = (d.freq - d.offs_freq) as u32;
    T::leaves_the_repeater(m, p, lo, 0, 0, 0, false, 0);
    T::leaves_the_repeater(m, i.port, lo, 0, 0, 0, false, 0);
    untouched_in_turn(p, i, retune_run::<T>(d, m, i.port));
}

proof fn change_bw_minds<T: Tuner>(d: Dongle<T::Model>, m: T::Model, p: Port, bw: u32)
    ensures
        minds_the_repeater(p, change_bw_run::<T>(d, m, p, bw)),
{
    let o = set_i2c_repeater_run(p, true);
    switch_takes_effect(p, true);
    if o.flow is Done {
        T::leaves_the_repeater(m, o.port, 0, bw, d.rate, 0, false, 0);
        let b = lifted(d, T::set_bw_run(m, o.port, bw, d.rate));
        with_repeater_on(p, b);
        if let Flow::Done(if_freq) = b.flow {
            let f = follow_bw_run::<T>(b.state, b.state.tuner->0, b.port, if_freq);
            follow_bw_leaves_it::<T>(b.state, b.state.tuner->0, b.port, if_freq);
            untouched_in_turn(o.port, b, f);
            with_repeater_on(p, f);
        }
    }
}

/// Setting the bandwidth minds the repeater.
pub proof fn set_tuner_bandwidth_minds<T: Tuner>(d: Dongle<T::Model>, p: Port, bw: u32)
    ensures
        minds_the_repeater(p, set_tuner_bandwidth_run::<T>(d, p, bw)),
{
    if let Some(m) = d.tuner {
        change_bw_minds::<T>(
            d,
            m,
            p,
            if bw > 0 {
                bw
            } else {
                d.rate
            },
        );
    }
}

/// Setting the sample rate minds the repeater.
pub proof fn set_sample_rate_minds<T: Tuner>(d: Dongle<T::Model>, p: Port, rate: u32)
    ensures
        minds_the_repeater(p, set_sample_rate_run::<T>(d, p, rate)),
{
    let ratio = resample_ratio(d.rtl_xtal, rate);
    let d1 = Dongle { rate: rate_of_ratio(d.rtl_xtal, ratio), ..d };
    if let Some(m) = d.tuner {
        change_bw_minds::<T>(d1, m, p, bw_in_force(d1));
    }
    let b = follow_rate_run::<T>(d1, p);
    let s = steps_run(b.port, rate_steps(ratio, d.corr));
    quiet_steps_mind(b.port, rate_steps(ratio, d.corr));
    if b.flow is Done {
        minds_in_turn(p, b, s);
        if s.flow is Done {
            set_offset_tuning_minds::<T>(b.state, s.port, true);
            minds_in_turn(p, s, set_offset_tuning_run::<T>(b.state, s.port, true));
        }
    }
}

proof fn power_tuner_minds<T: Tuner>(d: Dongle<T::Model>, p: Port, on: bool)
    ensures
        minds_the_repeater(p, power_tuner_run::<T>(d, p, on)),
{
    if let Some(m) = d.tuner {
        let o = set_i2c_repeater_run(p, true);
        switch_takes_effect(p, true);
        T::leaves_the_repeater(m, o.port, 0, 0, 0, 0, false, 0);
        if o.flow is Done {
            with_repeater_on(p, T::init_run(m, o.port));
            with_repeater_on(p, T::exit_run(m, o.port));
        }
    }
}

proof fn switch_input_minds<M>(d: Dongle<M>, p: Port, on: i32)
    ensures
        minds_the_repeater(p, switch_input_run(d, p, on)),
{
    let r82xx = d.tuner_type.is_r82xx_spec();
    quiet_steps_mind(p, direct_steps(on));
    if_freq_minds(p, d.rtl_xtal, d.corr, tuner_if(r82xx));
    let i = set_if_freq_run(p, d.rtl_xtal, d.corr, tuner_if(r82xx));
    quiet_steps_mind(i.port, tuner_input_steps(r82xx));
    if i.flow is Done {
        minds_in_turn(p, i, steps_run(i.port, tuner_input_steps(r82xx)));
    }
}

/// Switching direct sampling minds the repeater.
pub proof fn set_direct_sampling_minds<T: Tuner>(d: Dongle<T::Model>, p: Port, on: i32)
    ensures
        minds_the_repeater(p, set_direct_sampling_run::<T>(d, p, on)),
{
    let t = power_tuner_run::<T>(d, p, on == 0);
    power_tuner_minds::<T>(d, p, on == 0);
    if t.flow is Done {
        let s = switch_input_run(d, t.port, on);
        switch_input_minds(d, t.port, on);
        minds_in_turn(p, t, s);
        if s.flow is Done {
            let d1 = Dongle { direct_sampling: on, ..t.state };
            set_center_freq_minds::<T>(d1, s.port, d.freq);
            minds_in_turn(p, s, set_center_freq_run::<T>(d1, s.port, d.freq));
        }
    }
}

proof fn pin_minds(p: Port, addr: u16, gpio: u8, on: bool)
    ensures
        minds_the_repeater(p, pin_run(p, addr, gpio, on)),
{
    let f = read_reg_run(p, Block::Sys, addr);
    one_more(p.sent, f.port.sent.last());
    assert(minds_the_repeater(p, f));
    if let Flow::Done(r) = f.flow {
        let step = RegStep::Block {
            block: Block::Sys,
            addr,
            val: with_pin(r, gpio, on),
            len: 1,
        };
        quiet_step_minds(f.port, step);
        minds_in_turn(p, f, step.run(f.port));
    }
}

/// The operations that do not speak to the tuner mind the repeater: the modes of
/// the demodulator, the bias tee, the reset of the buffer.
pub proof fn other_operations_mind(p: Port, val: u16, gpio: u8, on: bool)
    ensures
        minds_the_repeater(p, mode_run(p, val)),
        minds_the_repeater(p, set_bias_tee_run(p, gpio, on)),
        minds_the_repeater(p, steps_run(p, reset_buffer_steps())),
{
    quiet_step_minds(p, RegStep::Demod { page: 0, addr: 0x19, val, len: 1 });
    quiet_steps_mind(p, reset_buffer_steps());
    let d = pin_run(p, GPD, gpio, false);
    pin_minds(p, GPD, gpio, false);
    if d.flow is Done {
        let e = pin_run(d.port, GPOE, gpio, true);
        pin_minds(d.port, GPOE, gpio, true);
        minds_in_turn(p, d, e);
        if e.flow is Done {
            pin_minds(e.port, GPO, gpio, on);
            minds_in_turn(p, e, pin_run(e.port, GPO, gpio, on));
        }
    }
}

} // verus!
