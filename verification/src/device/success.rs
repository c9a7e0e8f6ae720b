//! When the operations of the device go through: with every transfer answered in full they
//! fail for what device or tuner cannot do, and for nothing else.

use vstd::prelude::*;

use crate::device::Dongle;
use crate::device::frequency::{
    bw_in_force, change_bw_resumes, change_bw_run, follow_bw_resumes, follow_bw_run,
    follow_rate_run, lifted, rate_of_ratio, rate_steps, resample_ratio, set_center_freq_run,
    set_sample_rate_run,
};
use crate::device::gain::{mode_run, set_tuner_gain_run};
use crate::device::sampling::set_bias_tee_run;
use crate::error::Fault;
use crate::exchange::{in_turn, Flow, Port, Run};
use crate::reg::GPO;
use crate::tuner::Tuner;
use crate::tuner::r82xx::{r82xx_set_freq_resumes, r82xx_set_freq_run, Chip, R82xxPriv};
use crate::tuner::r82xx::constants::NUM_REGS;
use crate::tuner::r82xx::front_end::oscillator_for;
use crate::tuner::r82xx::gain::{r82xx_set_gain_resumes, r82xx_set_gain_run};
use crate::tuner::r82xx::success::{
    finds_lock, frequency_goes_through, gain_goes_through, lock_found_in_part, output_goes_through,
    pin_goes_through,
};
use crate::usb::{
    pin_resumes, set_gpio_output_resumes, set_gpio_output_run, set_i2c_repeater_resumes,
    set_i2c_repeater_run, steps_resume, steps_run, RegStep,
};
use crate::wire::{
    answered_in_full, answered_in_part, taken_in_part, taken_steps_go_through, taken_whole,
};

verus! {

proof fn repeater_goes_through(p: Port, on: bool)
    requires
        taken_whole(set_i2c_repeater_run(p, on).port, p.sent.len() as int),
    ensures
        !(set_i2c_repeater_run(p, on).flow is Failed),
{
    let val: u16 = if on {
        0x18
    } else {
        0x10
    };
    let steps = seq![RegStep::Demod { page: 1, addr: 0x01, val, len: 1 }];
    reveal_with_fuel(steps_run, 2);
    assert(steps_run(p, steps).port == set_i2c_repeater_run(p, on).port);
    taken_steps_go_through(p, steps);
}

/// Switching the automatic gain of the demodulator or the test mode goes through where the
/// write is taken whole.
pub proof fn mode_goes_through(p: Port, val: u16)
    requires
        taken_whole(mode_run(p, val).port, p.sent.len() as int),
    ensures
        !(mode_run(p, val).flow is Failed),
{
    let steps = seq![RegStep::Demod { page: 0, addr: 0x19, val, len: 1 }];
    reveal_with_fuel(steps_run, 2);
    assert(steps_run(p, steps).port == mode_run(p, val).port);
    taken_steps_go_through(p, steps);
}

/// Switching the bias tee goes through, on every pin, where every transfer is answered in
/// full.
pub proof fn bias_tee_goes_through(p: Port, gpio: u8, on: bool)
    requires
        answered_in_full(set_bias_tee_run(p, gpio, on).port, p.sent.len() as int),
    ensures
        !(set_bias_tee_run(p, gpio, on).flow is Failed),
{
    let r = set_bias_tee_run(p, gpio, on);
    let at = p.sent.len() as int;
    let g = set_gpio_output_run(p, gpio);
    set_gpio_output_resumes(p, gpio, Seq::empty());
    pin_resumes(g.port, GPO, gpio, on, Seq::empty());
    answered_in_part(g.port, r.port, at, at);
    output_goes_through(p, gpio);
    if g.flow is Done {
        answered_in_part(r.port, r.port, at, g.port.sent.len() as int);
        pin_goes_through(g.port, GPO, gpio, on);
    }
}

/// Setting the gain goes through, whatever the gain, where every transfer is answered in
/// full.
pub proof fn tuner_gain_goes_through(d: Dongle<Chip>, m: Chip, p: Port, gain: i32)
    requires
        d.tuner == Some(m),
        m.regs.len() == NUM_REGS,
        answered_in_full(
            set_tuner_gain_run::<R82xxPriv>(d, p, gain).port,
            p.sent.len() as int,
        ),
    ensures
        !(set_tuner_gain_run::<R82xxPriv>(d, p, gain).flow is Failed),
{
    let r = set_tuner_gain_run::<R82xxPriv>(d, p, gain);
    let at = p.sent.len() as int;
    let o = set_i2c_repeater_run(p, true);
    set_i2c_repeater_resumes(p, true, Seq::empty());
    let g = r82xx_set_gain_run(m, o.port, gain);
    r82xx_set_gain_resumes(m, o.port, gain, Seq::empty());
    set_i2c_repeater_resumes(g.port, false, Seq::empty());
    if o.flow is Done {
        in_turn(o.port, g.port, r.port);
    }
    taken_in_part(o.port, r.port, at, at);
    repeater_goes_through(p, true);
    if o.flow is Done {
        answered_in_part(g.port, r.port, at, o.port.sent.len() as int);
        gain_goes_through(m, o.port, gain);
        if g.flow is Done {
            taken_in_part(r.port, r.port, at, g.port.sent.len() as int);
            repeater_goes_through(g.port, false);
        }
    }
}

/// Setting the centre frequency goes through wherever the local oscillator then lies from
/// 27.657 to 1770 MHz, with a crystal from 28 to 60 MHz, where every transfer is answered
/// in full and the lock is found.
pub proof fn center_frequency_goes_through(d: Dongle<Chip>, m: Chip, p: Port, freq: u32)
    requires
        d.tuner == Some(m),
        m.regs.len() == NUM_REGS,
        d.direct_sampling == 0,
        d.offs_freq <= freq,
        28_000_000 <= m.xtal <= 60_000_000,
        27_656_500 <= oscillator_for(m, (freq - d.offs_freq) as u32) < 1_769_999_500,
        answered_in_full(
            set_center_freq_run::<R82xxPriv>(d, p, freq).port,
            p.sent.len() as int,
        ),
        finds_lock(
            m.i2c_addr,
            set_center_freq_run::<R82xxPriv>(d, p, freq).port,
            p.sent.len() as int,
        ),
    ensures
        !(set_center_freq_run::<R82xxPriv>(d, p, freq).flow is Failed),
{
    let r = set_center_freq_run::<R82xxPriv>(d, p, freq);
    let at = p.sent.len() as int;
    let lo = (freq - d.offs_freq) as u32;
    let o = set_i2c_repeater_run(p, true);
    set_i2c_repeater_resumes(p, true, Seq::empty());
    let t = r82xx_set_freq_run(m, o.port, lo);
    r82xx_set_freq_resumes(m, o.port, lo, Seq::empty());
    set_i2c_repeater_resumes(t.port, false, Seq::empty());
    if o.flow is Done {
        in_turn(o.port, t.port, r.port);
    }
    taken_in_part(o.port, r.port, at, at);
    repeater_goes_through(p, true);
    if o.flow is Done {
        answered_in_part(t.port, r.port, at, o.port.sent.len() as int);
        lock_found_in_part(m.i2c_addr, t.port, r.port, at, o.port.sent.len() as int);
        frequency_goes_through(m, o.port, lo);
        if t.flow is Done {
            taken_in_part(r.port, r.port, at, t.port.sent.len() as int);
            repeater_goes_through(t.port, false);
        }
    }
}

proof fn bandwidth_change_goes_on<T: Tuner>(d: Dongle<T::Model>, m: T::Model, p: Port, bw: u32)
    requires
        taken_whole(change_bw_run::<T>(d, m, p, bw).port, p.sent.len() as int),
    ensures
        !(change_bw_run::<T>(d, m, p, bw).flow is Failed),
{
    let r = change_bw_run::<T>(d, m, p, bw);
    let at = p.sent.len() as int;
    let o = set_i2c_repeater_run(p, true);
    set_i2c_repeater_resumes(p, true, Seq::empty());
    let t = T::set_bw_run(m, o.port, bw, d.rate);
    T::set_bw_resumes(m, o.port, bw, d.rate, Seq::empty());
    let b = lifted(d, t);
    match t.flow {
        Flow::Done(if_freq) => {
            follow_bw_resumes::<T>(b.state, t.state, t.port, if_freq, Seq::empty());
            let f = follow_bw_run::<T>(b.state, t.state, t.port, if_freq);
            set_i2c_repeater_resumes(f.port, false, Seq::empty());
            if o.flow is Done {
                in_turn(o.port, t.port, f.port);
                in_turn(o.port, f.port, r.port);
                if f.flow is Done {
                    taken_in_part(r.port, r.port, at, f.port.sent.len() as int);
                    repeater_goes_through(f.port, false);
                }
            }
        },
        Flow::Failed(_) => {
            set_i2c_repeater_resumes(t.port, false, Seq::empty());
            if o.flow is Done {
                in_turn(o.port, t.port, r.port);
                taken_in_part(r.port, r.port, at, t.port.sent.len() as int);
                repeater_goes_through(t.port, false);
            }
        },
        Flow::Waiting => {},
    }
    taken_in_part(o.port, r.port, at, at);
    repeater_goes_through(p, true);
}

/// The demodulator samples at 225 001 to 300 000 and at 900 001 to 3 200 000 samples per
/// second. Any other rate is refused with its number, before anything is sent; without
/// offset tuning one of these goes through where every write is taken whole, whatever the
/// tuner does.
pub proof fn sample_rates_go_through<T: Tuner>(d: Dongle<T::Model>, p: Port, rate: u32)
    ensures
        ({
            let r = set_sample_rate_run::<T>(d, p, rate);
            let fits = 225_001 <= rate <= 300_000 || 900_001 <= rate <= 3_200_000;
            &&& !fits ==> r == (Run {
                state: d,
                port: p,
                flow: Flow::<()>::Failed(Fault::InvalidSampleRate { rate_hz: rate }),
            })
            &&& fits && d.offs_freq == 0 && taken_whole(r.port, p.sent.len() as int) ==> !(
            r.flow is Failed)
        }),
{
    let r = set_sample_rate_run::<T>(d, p, rate);
    let at = p.sent.len() as int;
    let fits = 225_001 <= rate <= 300_000 || 900_001 <= rate <= 3_200_000;
    if fits && d.offs_freq == 0 && taken_whole(r.port, at) {
        let ratio = resample_ratio(d.rtl_xtal, rate);
        let d1 = Dongle { rate: rate_of_ratio(d.rtl_xtal, ratio), ..d };
        let b = follow_rate_run::<T>(d1, p);
        let steps = rate_steps(ratio, d.corr);
        steps_resume(b.port, steps, Seq::empty());
        if let Some(m) = d.tuner {
            let c = change_bw_run::<T>(d1, m, p, bw_in_force(d1));
            change_bw_resumes::<T>(d1, m, p, bw_in_force(d1), Seq::empty());
            taken_in_part(c.port, r.port, at, at);
            bandwidth_change_goes_on::<T>(d1, m, p, bw_in_force(d1));
        }
        if b.flow is Done {
            taken_in_part(r.port, r.port, at, b.port.sent.len() as int);
            taken_steps_go_through(b.port, steps);
        }
    }
}

} // verus!
