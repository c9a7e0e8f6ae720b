//! Tuner drivers.
//!
//! A tuner chip sits behind the I2C repeater of the demodulator. The repeater must
//! be on while one of these operations runs.

pub mod r82xx;

use vstd::prelude::*;

use crate::exchange::{flow_of, later, resumes, Answer, Exchange, Halt, Port, Run};
use crate::repeater::untouched;
use crate::wire::spares_demod;

verus! {

/// A driver of a tuner chip.
///
/// Each operation is described by a function of the driver's state and of the
/// conversation, and does what that function says. Each is told the same by more
/// answers: see [`resumes`].
pub trait Tuner: Send {
    /// The driver's state as a value of the model.
    type Model;

    spec fn model(&self) -> Self::Model;

    spec fn init_run(m: Self::Model, p: Port) -> Run<Self::Model, ()>;

    spec fn exit_run(m: Self::Model, p: Port) -> Run<Self::Model, ()>;

    spec fn set_freq_run(m: Self::Model, p: Port, freq: u32) -> Run<Self::Model, ()>;

    spec fn set_bw_run(m: Self::Model, p: Port, bw: u32, sample_rate: u32) -> Run<
        Self::Model,
        u32,
    >;

    spec fn set_gain_run(m: Self::Model, p: Port, gain: i32) -> Run<Self::Model, ()>;

    spec fn with_xtal(m: Self::Model, xtal: u32) -> Self::Model;

    spec fn set_gain_mode_run(m: Self::Model, p: Port, manual: bool) -> Run<Self::Model, ()>;

    spec fn set_if_gain_run(m: Self::Model, p: Port, stage: i32, gain: i32) -> Run<
        Self::Model,
        (),
    >;

    /// Initialises the tuner.
    fn init(&mut self, port: &mut Exchange) -> (r: Result<(), Halt>)
        ensures
            (Run { state: final(self).model(), port: final(port)@, flow: flow_of(r) })
                == Self::init_run(old(self).model(), old(port)@),
    ;

    /// Puts the tuner into standby.
    fn exit(&mut self, port: &mut Exchange) -> (r: Result<(), Halt>)
        ensures
            (Run { state: final(self).model(), port: final(port)@, flow: flow_of(r) })
                == Self::exit_run(old(self).model(), old(port)@),
    ;

    /// Sets the frequency in Hz.
    fn set_freq(&mut self, port: &mut Exchange, freq: u32) -> (r: Result<(), Halt>)
        ensures
            (Run { state: final(self).model(), port: final(port)@, flow: flow_of(r) })
                == Self::set_freq_run(old(self).model(), old(port)@, freq),
    ;

    /// Sets the bandwidth in Hz. Returns the intermediate frequency that the
    /// demodulator is to be set to, or zero where it is to stay as it is.
    fn set_bw(&mut self, port: &mut Exchange, bw: u32, sample_rate: u32) -> (r: Result<u32, Halt>)
        ensures
            (Run { state: final(self).model(), port: final(port)@, flow: flow_of(r) })
                == Self::set_bw_run(old(self).model(), old(port)@, bw, sample_rate),
    ;

    /// Sets the gain in tenths of dB.
    fn set_gain(&mut self, port: &mut Exchange, gain: i32) -> (r: Result<(), Halt>)
        ensures
            (Run { state: final(self).model(), port: final(port)@, flow: flow_of(r) })
                == Self::set_gain_run(old(self).model(), old(port)@, gain),
    ;

    /// Sets the frequency of the crystal.
    fn set_xtal(&mut self, xtal: u32)
        ensures
            final(self).model() == Self::with_xtal(old(self).model(), xtal),
    ;

    /// Switches between manual and automatic gain.
    fn set_gain_mode(&mut self, port: &mut Exchange, manual: bool) -> (r: Result<(), Halt>)
        ensures
            (Run { state: final(self).model(), port: final(port)@, flow: flow_of(r) })
                == Self::set_gain_mode_run(old(self).model(), old(port)@, manual),
    ;

    /// Sets the gain of an IF stage in tenths of dB. Stages count from one.
    fn set_if_gain(&mut self, port: &mut Exchange, stage: i32, gain: i32) -> (r: Result<(), Halt>)
        ensures
            (Run { state: final(self).model(), port: final(port)@, flow: flow_of(r) })
                == Self::set_if_gain_run(old(self).model(), old(port)@, stage, gain),
    ;

    proof fn init_resumes(m: Self::Model, p: Port, more: Seq<Answer>)
        ensures
            resumes(p, Self::init_run(m, p), Self::init_run(m, later(p, more)), more),
    ;

    proof fn exit_resumes(m: Self::Model, p: Port, more: Seq<Answer>)
        ensures
            resumes(p, Self::exit_run(m, p), Self::exit_run(m, later(p, more)), more),
    ;

    proof fn set_freq_resumes(m: Self::Model, p: Port, freq: u32, more: Seq<Answer>)
        ensures
            resumes(
                p,
                Self::set_freq_run(m, p, freq),
                Self::set_freq_run(m, later(p, more), freq),
                more,
            ),
    ;

    proof fn set_bw_resumes(
        m: Self::Model,
        p: Port,
        bw: u32,
        sample_rate: u32,
        more: Seq<Answer>,
    )
        ensures
            resumes(
                p,
                Self::set_bw_run(m, p, bw, sample_rate),
                Self::set_bw_run(m, later(p, more), bw, sample_rate),
                more,
            ),
    ;

    proof fn set_gain_resumes(m: Self::Model, p: Port, gain: i32, more: Seq<Answer>)
        ensures
            resumes(
                p,
                Self::set_gain_run(m, p, gain),
                Self::set_gain_run(m, later(p, more), gain),
                more,
            ),
    ;

    proof fn set_gain_mode_resumes(m: Self::Model, p: Port, manual: bool, more: Seq<Answer>)
        ensures
            resumes(
                p,
                Self::set_gain_mode_run(m, p, manual),
                Self::set_gain_mode_run(m, later(p, more), manual),
                more,
            ),
    ;

    proof fn set_if_gain_resumes(
        m: Self::Model,
        p: Port,
        stage: i32,
        gain: i32,
        more: Seq<Answer>,
    )
        ensures
            resumes(
                p,
                Self::set_if_gain_run(m, p, stage, gain),
                Self::set_if_gain_run(m, later(p, more), stage, gain),
                more,
            ),
    ;

    /// No operation switches the repeater, which belongs to the device.
    proof fn leaves_the_repeater(
        m: Self::Model,
        p: Port,
        freq: u32,
        bw: u32,
        sample_rate: u32,
        gain: i32,
        manual: bool,
        stage: i32,
    )
        ensures
            untouched(p, Self::init_run(m, p)),
            untouched(p, Self::exit_run(m, p)),
            untouched(p, Self::set_freq_run(m, p, freq)),
            untouched(p, Self::set_bw_run(m, p, bw, sample_rate)),
            untouched(p, Self::set_gain_run(m, p, gain)),
            untouched(p, Self::set_gain_mode_run(m, p, manual)),
            untouched(p, Self::set_if_gain_run(m, p, stage, gain)),
    ;

    /// No operation writes a register of the demodulator, which belongs to the device.
    proof fn leaves_the_demodulator(
        m: Self::Model,
        p: Port,
        freq: u32,
        bw: u32,
        sample_rate: u32,
        gain: i32,
        manual: bool,
        stage: i32,
    )
        ensures
            spares_demod(p, Self::init_run(m, p)),
            spares_demod(p, Self::exit_run(m, p)),
            spares_demod(p, Self::set_freq_run(m, p, freq)),
            spares_demod(p, Self::set_bw_run(m, p, bw, sample_rate)),
            spares_demod(p, Self::set_gain_run(m, p, gain)),
            spares_demod(p, Self::set_gain_mode_run(m, p, manual)),
            spares_demod(p, Self::set_if_gain_run(m, p, stage, gain)),
    ;
}

} // verus!
