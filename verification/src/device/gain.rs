//! Gain of the tuner and of the demodulator.

use vstd::prelude::*;

use crate::device::frequency::{close_run, lifted};
use crate::device::{Dongle, RtlSdrDevice};
use crate::exchange::{
    flow_of, in_step, later, resumes, stopped, Answer, Exchange, Flow, Halt, Port, Run, Transfer,
};
use crate::tuner::Tuner;
use crate::usb;
use crate::usb::{
    demod_value, demod_write_index, demod_write_reg_resumes, demod_write_reg_run,
    set_i2c_repeater_resumes, set_i2c_repeater_run,
};

verus! {

/// The gain that is kept: the new one where the tuner took it, else the former.
pub open spec fn gain_kept<M>(g: Run<Dongle<M>, ()>, gain: i32) -> Dongle<M> {
    match g.flow {
        Flow::Done(_) => Dongle { gain, ..g.state },
        _ => g.state,
    }
}

/// Setting the gain of the tuner.
pub open spec fn set_tuner_gain_run<T: Tuner>(d: Dongle<T::Model>, p: Port, gain: i32) -> Run<
    Dongle<T::Model>,
    (),
> {
    match d.tuner {
        Some(m) => {
            let o = set_i2c_repeater_run(p, true);
            match o.flow {
                Flow::Done(_) => {
                    let g = lifted(d, T::set_gain_run(m, o.port, gain));
                    match g.flow {
                        Flow::Waiting => g,
                        _ => close_run(gain_kept(g, gain), g.port, g.flow),
                    }
                },
                _ => stopped(d, o),
            }
        },
        None => Run { state: d, port: p, flow: Flow::Done(()) },
    }
}

/// Switching the tuner between manual and automatic gain.
pub open spec fn set_tuner_gain_mode_run<T: Tuner>(
    d: Dongle<T::Model>,
    p: Port,
    manual: bool,
) -> Run<Dongle<T::Model>, ()> {
    match d.tuner {
        Some(m) => {
            let o = set_i2c_repeater_run(p, true);
            match o.flow {
                Flow::Done(_) => {
                    let g = lifted(d, T::set_gain_mode_run(m, o.port, manual));
                    match g.flow {
                        Flow::Waiting => g,
                        _ => close_run(g.state, g.port, g.flow),
                    }
                },
                _ => stopped(d, o),
            }
        },
        None => Run { state: d, port: p, flow: Flow::Done(()) },
    }
}

/// Setting the gain of one of the tuner's IF stages.
pub open spec fn set_tuner_if_gain_run<T: Tuner>(
    d: Dongle<T::Model>,
    p: Port,
    stage: i32,
    gain: i32,
) -> Run<Dongle<T::Model>, ()> {
    match d.tuner {
        Some(m) => {
            let o = set_i2c_repeater_run(p, true);
            match o.flow {
                Flow::Done(_) => {
                    let g = lifted(d, T::set_if_gain_run(m, o.port, stage, gain));
                    match g.flow {
                        Flow::Waiting => g,
                        _ => close_run(g.state, g.port, g.flow),
                    }
                },
                _ => stopped(d, o),
            }
        },
        None => Run { state: d, port: p, flow: Flow::Done(()) },
    }
}

/// Writing the mode register of the demodulator.
pub open spec fn mode_run(p: Port, val: u16) -> Run<(), ()> {
    demod_write_reg_run(p, 0, 0x19, val, 1)
}

/// The mode with the automatic gain of the demodulator on or off.
pub open spec fn agc_mode(on: bool) -> u16 {
    if on {
        0x25
    } else {
        0x05
    }
}

impl<T: Tuner> RtlSdrDevice<T> {
    /// Sets the gain of the tuner in tenths of dB. The gain that is kept changes
    /// only where the tuner took the new one. Without a tuner there is nothing to do.
    pub fn set_tuner_gain(&mut self, port: &mut Exchange, gain: i32) -> (r: Result<(), Halt>)
        ensures
            (Run { state: final(self)@, port: final(port)@, flow: flow_of(r) })
                == set_tuner_gain_run::<T>(old(self)@, old(port)@, gain),
    {
        if let Some(tuner) = &mut self.tuner {
            usb::set_i2c_repeater(port, true)?;
            let result: Result<(), Halt> = tuner.set_gain(port, gain);
            match &result {
                Ok(_) => {
                    self.gain = gain;
                },
                Err(Halt::Waiting) => {
                    return Err(Halt::Waiting);
                },
                Err(Halt::Failed(_)) => {},
            }
            usb::set_i2c_repeater(port, false)?;
            result
        } else {
            Ok(())
        }
    }

    /// Switches the tuner between manual and automatic gain. Without a tuner there
    /// is nothing to do.
    pub fn set_tuner_gain_mode(&mut self, port: &mut Exchange, manual: bool) -> (r: Result<
        (),
        Halt,
    >)
        ensures
            (Run { state: final(self)@, port: final(port)@, flow: flow_of(r) })
                == set_tuner_gain_mode_run::<T>(old(self)@, old(port)@, manual),
    {
        if let Some(tuner) = &mut self.tuner {
            usb::set_i2c_repeater(port, true)?;
            let result: Result<(), Halt> = tuner.set_gain_mode(port, manual);
            if let Err(Halt::Waiting) = &result {
                return Err(Halt::Waiting);
            }
            usb::set_i2c_repeater(port, false)?;
            result
        } else {
            Ok(())
        }
    }

    /// Sets the gain of one of the tuner's IF stages in tenths of dB. Stages count
    /// from one. Without a tuner there is nothing to do.
    pub fn set_tuner_if_gain(&mut self, port: &mut Exchange, stage: i32, gain: i32) -> (r: Result<
        (),
        Halt,
    >)
        ensures
            (Run { state: final(self)@, port: final(port)@, flow: flow_of(r) })
                == set_tuner_if_gain_run::<T>(old(self)@, old(port)@, stage, gain),
    {
        if let Some(tuner) = &mut self.tuner {
            usb::set_i2c_repeater(port, true)?;
            let result: Result<(), Halt> = tuner.set_if_gain(port, stage, gain);
            if let Err(Halt::Waiting) = &result {
                return Err(Halt::Waiting);
            }
            usb::set_i2c_repeater(port, false)?;
            result
        } else {
            Ok(())
        }
    }

    /// Switches the automatic gain of the demodulator. This writes the whole mode
    /// register, which the test mode writes too: the later of the two wins.
    pub fn set_agc_mode(&self, port: &mut Exchange, on: bool) -> (r: Result<(), Halt>)
        ensures
            (Run { state: (), port: final(port)@, flow: flow_of(r) }) == mode_run(
                old(port)@,
                agc_mode(on),
            ),
    {
        usb::demod_write_reg(
            port,
            0,
            0x19,
            if on {
                0x25
            } else {
                0x05
            },
            1,
        )
    }
}

/// Setting the gain agrees with itself when answers come later.
pub proof fn set_tuner_gain_resumes<T: Tuner>(
    d: Dongle<T::Model>,
    p: Port,
    gain: i32,
    more: Seq<Answer>,
)
    ensures
        resumes(
            p,
            set_tuner_gain_run::<T>(d, p, gain),
            set_tuner_gain_run::<T>(d, later(p, more), gain),
            more,
        ),
{
    if let Some(m) = d.tuner {
        set_i2c_repeater_resumes(p, true, more);
        let early = set_i2c_repeater_run(p, true);
        let late = set_i2c_repeater_run(later(p, more), true);
        in_step(early.port, late.port, more);
        T::set_gain_resumes(m, early.port, gain, more);
        T::set_gain_resumes(m, late.port, gain, Seq::empty());
        let early2 = T::set_gain_run(m, early.port, gain);
        let late2 = T::set_gain_run(m, late.port, gain);
        in_step(early2.port, late2.port, more);
        set_i2c_repeater_resumes(early2.port, false, more);
        set_i2c_repeater_resumes(late2.port, false, Seq::empty());
    }
}

/// Switching the gain mode agrees with itself when answers come later.
pub proof fn set_tuner_gain_mode_resumes<T: Tuner>(
    d: Dongle<T::Model>,
    p: Port,
    manual: bool,
    more: Seq<Answer>,
)
    ensures
        resumes(
            p,
            set_tuner_gain_mode_run::<T>(d, p, manual),
            set_tuner_gain_mode_run::<T>(d, later(p, more), manual),
            more,
        ),
{
    if let Some(m) = d.tuner {
        set_i2c_repeater_resumes(p, true, more);
        let early = set_i2c_repeater_run(p, true);
        let late = set_i2c_repeater_run(later(p, more), true);
        in_step(early.port, late.port, more);
        T::set_gain_mode_resumes(m, early.port, manual, more);
        T::set_gain_mode_resumes(m, late.port, manual, Seq::empty());
        let early2 = T::set_gain_mode_run(m, early.port, manual);
        let late2 = T::set_gain_mode_run(m, late.port, manual);
        in_step(early2.port, late2.port, more);
        set_i2c_repeater_resumes(early2.port, false, more);
        set_i2c_repeater_resumes(late2.port, false, Seq::empty());
    }
}

/// Setting the gain of an IF stage agrees with itself when answers come later.
pub proof fn set_tuner_if_gain_resumes<T: Tuner>(
    d: Dongle<T::Model>,
    p: Port,
    stage: i32,
    gain: i32,
    more: Seq<Answer>,
)
    ensures
        resumes(
            p,
            set_tuner_if_gain_run::<T>(d, p, stage, gain),
            set_tuner_if_gain_run::<T>(d, later(p, more), stage, gain),
            more,
        ),
{
    if let Some(m) = d.tuner {
        set_i2c_repeater_resumes(p, true, more);
        let early = set_i2c_repeater_run(p, true);
        let late = set_i2c_repeater_run(later(p, more), true);
        in_step(early.port, late.port, more);
        T::set_if_gain_resumes(m, early.port, stage, gain, more);
        T::set_if_gain_resumes(m, late.port, stage, gain, Seq::empty());
        let early2 = T::set_if_gain_run(m, early.port, stage, gain);
        let late2 = T::set_if_gain_run(m, late.port, stage, gain);
        in_step(early2.port, late2.port, more);
        set_i2c_repeater_resumes(early2.port, false, more);
        set_i2c_repeater_resumes(late2.port, false, Seq::empty());
    }
}

/// Writing the mode register agrees with itself when answers come later.
pub proof fn mode_resumes(p: Port, val: u16, more: Seq<Answer>)
    ensures
        resumes(p, mode_run(p, val), mode_run(later(p, more), val), more),
{
    demod_write_reg_resumes(p, 0, 0x19, val, 1, more);
}

/// The gain that the device reports is the last one that the tuner took: a gain
/// that the tuner refused leaves it as it was, and one that it took is reported
/// even where the repeater then fails.
pub proof fn reported_gain_is_the_last_taken<T: Tuner>(
    d: Dongle<T::Model>,
    m: T::Model,
    p: Port,
    gain: i32,
)
    requires
        d.tuner == Some(m),
        set_i2c_repeater_run(p, true).flow is Done,
    ensures
        ({
            let g = T::set_gain_run(m, set_i2c_repeater_run(p, true).port, gain);
            set_tuner_gain_run::<T>(d, p, gain).state.gain == (if g.flow is Done {
                gain
            } else {
                d.gain
            })
        }),
{
}

/// A mode is written whole, in one transfer: whatever the mode register held
/// before, after the write it holds `val`.
pub proof fn mode_is_written_whole(p: Port, val: u16)
    requires
        val < 256,
    ensures
        mode_run(p, val).port.sent.len() > p.sent.len(),
        mode_run(p, val).port.sent[p.sent.len() as int] == (Transfer::Out {
            value: demod_value(0x19),
            index: demod_write_index(0),
            data: seq![val as u8],
        }),
{
}

} // verus!
