//! Sample rate, centre frequency, correction, offset tuning, bandwidth.

use vstd::prelude::*;
use vstd::string::*;

use crate::constants::DEF_RTL_XTAL_FREQ;
use crate::device::{
    clock_offset, corrected, offset_of_clock, set_if_freq_resumes, set_if_freq_run,
    set_sample_freq_correction_resumes, set_sample_freq_correction_run, Dongle, RtlSdrDevice,
};
use crate::error::{Fault, RtlSdrError};
use crate::exchange::{
    flow_of, in_step, later, resumes, stopped, Answer, Exchange, Flow, Halt, Port, Run,
};
use crate::text::{decimal, decimal_text};
use crate::tuner::Tuner;
use crate::usb;
use crate::usb::{
    set_i2c_repeater_resumes, set_i2c_repeater_run, steps_resume, steps_run, RegStep,
};

verus! {

/// What is said of a frequency below the offset of the tuner.
pub open spec fn below_floor_message(freq: u32, offs_freq: u32) -> Seq<char> {
    "freq "@ + decimal(freq as nat) + " Hz is below the offset-tuning floor "@ + decimal(
        offs_freq as nat,
    ) + " Hz"@
}

/// Returns where the tuner is to be set for a centre frequency of `freq`: the
/// offset lower. A frequency below the offset is refused.
pub fn freq_minus_offset(freq: u32, offs_freq: u32) -> (r: Result<u32, RtlSdrError>)
    ensures
        match r {
            Ok(f) => f == freq - offs_freq,
            Err(e) => freq < offs_freq && e@ == Fault::InvalidParameter(
                below_floor_message(freq, offs_freq),
            ),
        },
{
    if freq >= offs_freq {
        Ok(freq - offs_freq)
    } else {
        let mut msg: String = String::from_str("freq ");
        msg.append(decimal_text(freq as u64).as_str());
        msg.append(" Hz is below the offset-tuning floor ");
        msg.append(decimal_text(offs_freq as u64).as_str());
        msg.append(" Hz");
        Err(RtlSdrError::InvalidParameter(msg))
    }
}

/// A run of the tuner's driver as a run of the device.
pub open spec fn lifted<M, A>(d: Dongle<M>, f: Run<M, A>) -> Run<Dongle<M>, A> {
    Run { state: Dongle { tuner: Some(f.state), ..d }, port: f.port, flow: f.flow }
}

/// A run that leaves the device's state alone, as a run of the device.
pub open spec fn beside<M, A>(d: Dongle<M>, f: Run<(), A>) -> Run<Dongle<M>, A> {
    Run { state: d, port: f.port, flow: f.flow }
}

/// Switching the repeater off, after an operation of the tuner that ended with
/// `outcome`. A failure of the switch comes before one of the operation.
pub open spec fn close_run<M, A>(d: Dongle<M>, p: Port, outcome: Flow<A>) -> Run<Dongle<M>, A> {
    let c = set_i2c_repeater_run(p, false);
    match c.flow {
        Flow::Done(_) => Run { state: d, port: c.port, flow: outcome },
        _ => stopped(d, c),
    }
}

/// The centre frequency that is kept: the new one where it was set, none where it
/// failed.
pub open spec fn settled<M>(r: Run<Dongle<M>, ()>, freq: u32) -> Run<Dongle<M>, ()> {
    match r.flow {
        Flow::Done(_) => Run { state: Dongle { freq, ..r.state }, ..r },
        Flow::Failed(_) => Run { state: Dongle { freq: 0, ..r.state }, ..r },
        Flow::Waiting => r,
    }
}

/// Setting the tuner for a centre frequency of `freq`, with the repeater on
/// meanwhile.
pub open spec fn tune_run<T: Tuner>(d: Dongle<T::Model>, m: T::Model, p: Port, freq: u32) -> Run<
    Dongle<T::Model>,
    (),
> {
    let o = set_i2c_repeater_run(p, true);
    match o.flow {
        Flow::Done(_) => {
            let t = lifted(d, T::set_freq_run(m, o.port, (freq - d.offs_freq) as u32));
            match t.flow {
                Flow::Waiting => t,
                _ => {
                    let c = set_i2c_repeater_run(t.port, false);
                    match c.flow {
                        Flow::Done(_) => settled(Run { port: c.port, ..t }, freq),
                        _ => stopped(t.state, c),
                    }
                },
            }
        },
        _ => stopped(d, o),
    }
}

/// Setting the centre frequency.
pub open spec fn set_center_freq_run<T: Tuner>(d: Dongle<T::Model>, p: Port, freq: u32) -> Run<
    Dongle<T::Model>,
    (),
> {
    if d.direct_sampling != 0 {
        settled(beside(d, set_if_freq_run(p, d.rtl_xtal, d.corr, freq)), freq)
    } else {
        match d.tuner {
            Some(m) => if freq < d.offs_freq {
                Run {
                    state: Dongle { freq: 0, ..d },
                    port: p,
                    flow: Flow::Failed(
                        Fault::InvalidParameter(below_floor_message(freq, d.offs_freq)),
                    ),
                }
            } else {
                tune_run::<T>(d, m, p, freq)
            },
            None => Run {
                state: Dongle { freq: 0, ..d },
                port: p,
                flow: Flow::Failed(Fault::NoTuner),
            },
        }
    }
}

impl<T: Tuner> RtlSdrDevice<T> {
    /// Sets the centre frequency in Hz. After a failure no frequency counts as
    /// set, unless it is the I2C repeater that failed.
    pub fn set_center_freq(&mut self, port: &mut Exchange, freq: u32) -> (r: Result<(), Halt>)
        ensures
            (Run { state: final(self)@, port: final(port)@, flow: flow_of(r) })
                == set_center_freq_run::<T>(old(self)@, old(port)@, freq),
    {
        let outcome: Result<(), Halt> = if self.direct_sampling != 0 {
            self.set_if_freq(port, freq)
        } else {
            match &mut self.tuner {
                Some(tuner) => match freq_minus_offset(freq, self.offs_freq) {
                    Ok(lo) => {
                        usb::set_i2c_repeater(port, true)?;
                        let tuned: Result<(), Halt> = tuner.set_freq(port, lo);
                        if let Err(Halt::Waiting) = tuned {
                            return Err(Halt::Waiting);
                        }
                        usb::set_i2c_repeater(port, false)?;
                        tuned
                    },
                    Err(e) => Err(Halt::Failed(e)),
                },
                None => Err(Halt::Failed(RtlSdrError::NoTuner)),
            }
        };
        match outcome {
            Ok(_) => {
                self.freq = freq;
                Ok(())
            },
            Err(Halt::Waiting) => Err(Halt::Waiting),
            Err(Halt::Failed(e)) => {
                self.freq = 0;
                Err(Halt::Failed(e))
            },
        }
    }
}

/// Correcting the crystals.
pub open spec fn set_freq_correction_run<T: Tuner>(d: Dongle<T::Model>, p: Port, ppm: i32) -> Run<
    Dongle<T::Model>,
    (),
> {
    if d.corr == ppm {
        Run { state: d, port: p, flow: Flow::Done(()) }
    } else {
        let d1 = Dongle { corr: ppm, ..d };
        let s = set_sample_freq_correction_run(p, ppm);
        match s.flow {
            Flow::Done(_) => {
                let d2 = Dongle {
                    tuner: match d.tuner {
                        Some(m) => Some(T::with_xtal(m, corrected(d.tun_xtal, ppm) as u32)),
                        None => None,
                    },
                    ..d1
                };
                if d.freq > 0 {
                    set_center_freq_run::<T>(d2, s.port, d.freq)
                } else {
                    Run { state: d2, port: s.port, flow: Flow::Done(()) }
                }
            },
            _ => stopped(d1, s),
        }
    }
}

/// The offset of the tuner at a sample rate of `rate`: 1.7 times half of it.
pub open spec fn tuning_floor(rate: u32) -> int {
    (rate / 2) * 170 / 100
}

/// Whether the offset at a sample rate of `rate` can be computed.
pub open spec fn floor_fits(rate: u32) -> bool {
    (rate / 2) * 170 <= u32::MAX
}

/// Returns the offset of the tuner at a sample rate of `rate`.
pub fn offset_tuning_floor(rate: u32) -> (r: u32)
    requires
        floor_fits(rate),
    ensures
        r == tuning_floor(rate),
{
    (rate / 2) * 170 / 100
}

/// Whether the tuner and the mode of a device allow offset tuning.
pub open spec fn can_offset<M>(d: Dongle<M>) -> bool {
    !d.tuner_type.is_r82xx_spec() && d.direct_sampling == 0
}

/// What is said of a frequency that offset tuning cannot reach.
pub open spec fn at_floor_message(freq: u32, offset: int) -> Seq<char> {
    "freq "@ + decimal(freq as nat) + " Hz is at or below the offset-tuning floor "@ + decimal(
        offset as nat,
    ) + " Hz"@
}

/// What keeps offset tuning from being switched.
pub open spec fn offset_fault<M>(d: Dongle<M>, on: bool) -> Option<Fault> {
    if d.tuner_type.is_r82xx_spec() {
        Some(Fault::InvalidParameter("offset tuning not supported for R82XX tuners"@))
    } else if d.direct_sampling != 0 {
        Some(Fault::InvalidParameter("offset tuning not available in direct sampling mode"@))
    } else if on && 0 < d.freq <= tuning_floor(d.rate) {
        Some(Fault::InvalidParameter(at_floor_message(d.freq, tuning_floor(d.rate))))
    } else {
        None
    }
}

/// The bandwidth in force: the one that was set, else the sample rate.
pub open spec fn bw_in_force<M>(d: Dongle<M>) -> u32 {
    if d.bw > 0 {
        d.bw
    } else {
        d.rate
    }
}

/// Setting the tuner's bandwidth with the repeater on meanwhile. Whether the tuner
/// takes it does not matter.
pub open spec fn try_bw_run<T: Tuner>(d: Dongle<T::Model>, p: Port, bw: u32) -> Run<
    Dongle<T::Model>,
    (),
> {
    match d.tuner {
        Some(m) => {
            let o = set_i2c_repeater_run(p, true);
            match o.flow {
                Flow::Done(_) => {
                    let b = lifted(d, T::set_bw_run(m, o.port, bw, d.rate));
                    match b.flow {
                        Flow::Waiting => stopped(b.state, b),
                        _ => close_run(b.state, b.port, Flow::Done(())),
                    }
                },
                _ => stopped(d, o),
            }
        },
        None => Run { state: d, port: p, flow: Flow::Done(()) },
    }
}

/// Switching offset tuning.
pub open spec fn set_offset_tuning_run<T: Tuner>(d: Dongle<T::Model>, p: Port, on: bool) -> Run<
    Dongle<T::Model>,
    (),
> {
    match offset_fault(d, on) {
        Some(e) => Run { state: d, port: p, flow: Flow::Failed(e) },
        None => {
            let offset: u32 = if on {
                tuning_floor(d.rate) as u32
            } else {
                0
            };
            let d1 = Dongle { offs_freq: offset, ..d };
            let i = set_if_freq_run(p, d.rtl_xtal, d.corr, offset);
            match i.flow {
                Flow::Done(_) => {
                    let bw = if on {
                        (2 * offset) as u32
                    } else {
                        bw_in_force(d)
                    };
                    let b = try_bw_run::<T>(d1, i.port, bw);
                    match b.flow {
                        Flow::Done(_) => if d.freq > offset {
                            set_center_freq_run::<T>(b.state, b.port, d.freq)
                        } else {
                            b
                        },
                        _ => b,
                    }
                },
                _ => stopped(d1, i),
            }
        },
    }
}

/// Tuning to the centre frequency again while the repeater is on. Where that
/// fails no frequency counts as set, and the operation goes on.
pub open spec fn retune_run<T: Tuner>(d: Dongle<T::Model>, m: T::Model, p: Port) -> Run<
    Dongle<T::Model>,
    (),
> {
    if d.freq == 0 {
        Run { state: d, port: p, flow: Flow::Done(()) }
    } else if d.freq < d.offs_freq {
        Run { state: Dongle { freq: 0, ..d }, port: p, flow: Flow::Done(()) }
    } else {
        let t = lifted(d, T::set_freq_run(m, p, (d.freq - d.offs_freq) as u32));
        match t.flow {
            Flow::Failed(_) => Run {
                state: Dongle { freq: 0, ..t.state },
                port: t.port,
                flow: Flow::Done(()),
            },
            _ => t,
        }
    }
}

/// What follows a change of the tuner's bandwidth while the repeater is on: the
/// demodulator takes the intermediate frequency `if_freq`, unless it is zero, and
/// the tuner tunes again. Whether they succeed does not matter.
pub open spec fn follow_bw_run<T: Tuner>(
    d: Dongle<T::Model>,
    m: T::Model,
    p: Port,
    if_freq: u32,
) -> Run<Dongle<T::Model>, ()> {
    if if_freq == 0 {
        retune_run::<T>(d, m, p)
    } else {
        let i = set_if_freq_run(p, d.rtl_xtal, d.corr, if_freq);
        match i.flow {
            Flow::Waiting => stopped(d, i),
            _ => retune_run::<T>(d, m, i.port),
        }
    }
}

/// Setting the tuner's bandwidth with the repeater on meanwhile, and what follows
/// from it. The result is that of the tuner.
pub open spec fn change_bw_run<T: Tuner>(
    d: Dongle<T::Model>,
    m: T::Model,
    p: Port,
    bw: u32,
) -> Run<Dongle<T::Model>, Flow<()>> {
    let o = set_i2c_repeater_run(p, true);
    match o.flow {
        Flow::Done(_) => {
            let b = lifted(d, T::set_bw_run(m, o.port, bw, d.rate));
            match b.flow {
                Flow::Waiting => stopped(b.state, b),
                Flow::Failed(e) => close_run(b.state, b.port, Flow::Done(Flow::Failed(e))),
                Flow::Done(if_freq) => {
                    let f = follow_bw_run::<T>(b.state, b.state.tuner->0, b.port, if_freq);
                    match f.flow {
                        Flow::Done(_) => close_run(f.state, f.port, Flow::Done(Flow::Done(()))),
                        _ => stopped(f.state, f),
                    }
                },
            }
        },
        _ => stopped(d, o),
    }
}

/// Setting the bandwidth. It is kept only where the tuner took it.
pub open spec fn set_tuner_bandwidth_run<T: Tuner>(d: Dongle<T::Model>, p: Port, bw: u32) -> Run<
    Dongle<T::Model>,
    (),
> {
    match d.tuner {
        Some(m) => {
            let wanted = if bw > 0 {
                bw
            } else {
                d.rate
            };
            let b = change_bw_run::<T>(d, m, p, wanted);
            match b.flow {
                Flow::Done(Flow::Done(_)) => Run {
                    state: Dongle { bw, ..b.state },
                    port: b.port,
                    flow: Flow::Done(()),
                },
                Flow::Done(Flow::Failed(e)) => Run {
                    state: b.state,
                    port: b.port,
                    flow: Flow::Failed(e),
                },
                _ => stopped(b.state, b),
            }
        },
        None => Run { state: d, port: p, flow: Flow::Done(()) },
    }
}

/// Whether the demodulator can sample at `rate`.
pub open spec fn is_sample_rate(rate: u32) -> bool {
    225_000 < rate <= 300_000 || 900_000 < rate <= 3_200_000
}

/// Returns whether the demodulator can sample at `rate`.
pub fn is_valid_sample_rate(rate: u32) -> (r: bool)
    ensures
        r == is_sample_rate(rate),
{
    (225_000 < rate && rate <= 300_000) || (900_000 < rate && rate <= 3_200_000)
}

/// The largest 32-bit number that is at most `x`.
pub open spec fn in_32_bits(x: int) -> u32 {
    if x > u32::MAX {
        u32::MAX
    } else {
        x as u32
    }
}

/// The resampling ratio for `rate`: crystal over rate in units of 2^-22, in the
/// bits that the demodulator has.
pub open spec fn resample_ratio(xtal: u32, rate: u32) -> u32 {
    in_32_bits(xtal * 0x40_0000 / (rate as int)) & 0x0fff_fffc
}

/// The ratio as the demodulator takes it: bit 27 stands for bit 28 too.
pub open spec fn real_ratio(ratio: u32) -> u32 {
    ratio | ((ratio & 0x0800_0000) << 1)
}

/// The sample rate that a ratio gives.
pub open spec fn rate_of_ratio(xtal: u32, ratio: u32) -> u32 {
    if real_ratio(ratio) == 0 {
        if xtal == 0 {
            0
        } else {
            u32::MAX
        }
    } else {
        in_32_bits(xtal * 0x40_0000 / (real_ratio(ratio) as int))
    }
}

/// The writes that set the ratio, correct the sample clock and reset the
/// demodulator.
pub open spec fn rate_steps(ratio: u32, corr: i32) -> Seq<RegStep> {
    let offset = clock_offset(corr);
    seq![
        RegStep::Demod { page: 1, addr: 0x9f, val: (ratio / 65536) as u16, len: 2 },
        RegStep::Demod { page: 1, addr: 0xa1, val: (ratio % 65536) as u16, len: 2 },
        RegStep::Demod { page: 1, addr: 0x3f, val: (offset % 256) as u16, len: 1 },
        RegStep::Demod { page: 1, addr: 0x3e, val: ((offset / 256) % 64) as u16, len: 1 },
        RegStep::Demod { page: 1, addr: 0x01, val: 0x14, len: 1 },
        RegStep::Demod { page: 1, addr: 0x01, val: 0x10, len: 1 },
    ]
}

/// The tuner's share of a change of the sample rate. Whether the tuner takes the
/// bandwidth does not matter.
pub open spec fn follow_rate_run<T: Tuner>(d: Dongle<T::Model>, p: Port) -> Run<
    Dongle<T::Model>,
    (),
> {
    match d.tuner {
        Some(m) => {
            let b = change_bw_run::<T>(d, m, p, bw_in_force(d));
            match b.flow {
                Flow::Done(_) => Run { state: b.state, port: b.port, flow: Flow::Done(()) },
                _ => stopped(b.state, b),
            }
        },
        None => Run { state: d, port: p, flow: Flow::Done(()) },
    }
}

/// Setting the sample rate. The rate that is kept is the one that the ratio gives.
/// With offset tuning on, a rate at which it would be refused is refused first.
pub open spec fn set_sample_rate_run<T: Tuner>(d: Dongle<T::Model>, p: Port, rate: u32) -> Run<
    Dongle<T::Model>,
    (),
> {
    let ratio = resample_ratio(d.rtl_xtal, rate);
    let d1 = Dongle { rate: rate_of_ratio(d.rtl_xtal, ratio), ..d };
    if !is_sample_rate(rate) {
        Run { state: d, port: p, flow: Flow::Failed(Fault::InvalidSampleRate { rate_hz: rate }) }
    } else if d.offs_freq > 0 && offset_fault(d1, true) is Some {
        Run { state: d, port: p, flow: Flow::Failed(offset_fault(d1, true)->0) }
    } else {
        let b = follow_rate_run::<T>(d1, p);
        match b.flow {
            Flow::Done(_) => {
                let s = steps_run(b.port, rate_steps(ratio, d.corr));
                match s.flow {
                    Flow::Done(_) => if d.offs_freq > 0 {
                        set_offset_tuning_run::<T>(b.state, s.port, true)
                    } else {
                        beside(b.state, s)
                    },
                    _ => stopped(b.state, s),
                }
            },
            _ => b,
        }
    }
}

/// Returns the resampling ratio for a sample rate.
pub fn ratio_for(xtal: u32, rate: u32) -> (r: u32)
    requires
        rate > 0,
    ensures
        r == resample_ratio(xtal, rate),
{
    let ratio: u64 = xtal as u64 * 0x40_0000 / rate as u64;
    let ratio: u32 = if ratio > u32::MAX as u64 {
        u32::MAX
    } else {
        ratio as u32
    };
    ratio & 0x0fff_fffc
}

fn program_rate(port: &mut Exchange, ratio: u32, corr: i32) -> (r: Result<(), Halt>)
    ensures
        (Run { state: (), port: final(port)@, flow: flow_of(r) }) == steps_run(
            old(port)@,
            rate_steps(ratio, corr),
        ),
{
    let offset: i32 = offset_of_clock(corr);
    let steps: [RegStep; 6] = [
        RegStep::Demod { page: 1, addr: 0x9f, val: (ratio / 65536) as u16, len: 2 },
        RegStep::Demod { page: 1, addr: 0xa1, val: (ratio % 65536) as u16, len: 2 },
        RegStep::Demod { page: 1, addr: 0x3f, val: ((offset + 65536) % 256) as u16, len: 1 },
        RegStep::Demod {
            page: 1,
            addr: 0x3e,
            val: (((offset + 65536) / 256) % 64) as u16,
            len: 1,
        },
        RegStep::Demod { page: 1, addr: 0x01, val: 0x14, len: 1 },
        RegStep::Demod { page: 1, addr: 0x01, val: 0x10, len: 1 },
    ];
    assert(steps@ =~= rate_steps(ratio, corr));
    usb::apply(port, &steps)
}

/// The tuner's share of a change of the sample rate touches the tuner and, where
/// tuning again fails, the centre frequency; nothing else.
pub proof fn follow_rate_keeps_the_rest<T: Tuner>(d: Dongle<T::Model>, p: Port)
    ensures
        ({
            let s = follow_rate_run::<T>(d, p).state;
            &&& s == (Dongle { tuner: s.tuner, freq: s.freq, ..d })
            &&& s.freq == d.freq || s.freq == 0
        }),
{
}

/// Returns the sample rate that a resampling ratio gives.
pub fn rate_for_ratio(xtal: u32, ratio: u32) -> (r: u32)
    ensures
        r == rate_of_ratio(xtal, ratio),
{
    let taken: u32 = ratio | ((ratio & 0x0800_0000) << 1);
    if taken == 0 {
        return if xtal == 0 {
            0
        } else {
            u32::MAX
        };
    }
    let rate: u64 = xtal as u64 * 0x40_0000 / taken as u64;
    if rate > u32::MAX as u64 {
        u32::MAX
    } else {
        rate as u32
    }
}

impl<T: Tuner> RtlSdrDevice<T> {
    /// Corrects the crystals by `ppm` parts in a million.
    pub fn set_freq_correction(&mut self, port: &mut Exchange, ppm: i32) -> (r: Result<(), Halt>)
        ensures
            (Run { state: final(self)@, port: final(port)@, flow: flow_of(r) })
                == set_freq_correction_run::<T>(old(self)@, old(port)@, ppm),
    {
        if self.corr == ppm {
            return Ok(());
        }
        self.corr = ppm;
        self.set_sample_freq_correction(port, ppm)?;
        let xtal: u32 = self.get_tuner_xtal();
        if let Some(tuner) = &mut self.tuner {
            tuner.set_xtal(xtal);
        }
        if self.freq > 0 {
            let freq: u32 = self.freq;
            self.set_center_freq(port, freq)?;
        }
        Ok(())
    }

    fn offset_error(&self, rate: u32, on: bool) -> (r: Option<RtlSdrError>)
        requires
            on && can_offset(self@) ==> floor_fits(rate),
        ensures
            match r {
                Some(e) => offset_fault(Dongle { rate, ..self@ }, on) == Some(e@),
                None => offset_fault(Dongle { rate, ..self@ }, on) is None,
            },
    {
        if self.tuner_type.is_r82xx() {
            return Some(
                RtlSdrError::InvalidParameter(
                    String::from_str("offset tuning not supported for R82XX tuners"),
                ),
            );
        }
        if self.direct_sampling != 0 {
            return Some(
                RtlSdrError::InvalidParameter(
                    String::from_str("offset tuning not available in direct sampling mode"),
                ),
            );
        }
        if on {
            let offset: u32 = offset_tuning_floor(rate);
            if self.freq > 0 && self.freq <= offset {
                let mut msg: String = String::from_str("freq ");
                msg.append(decimal_text(self.freq as u64).as_str());
                msg.append(" Hz is at or below the offset-tuning floor ");
                msg.append(decimal_text(offset as u64).as_str());
                msg.append(" Hz");
                return Some(RtlSdrError::InvalidParameter(msg));
            }
        }
        None
    }

    fn try_bw(&mut self, port: &mut Exchange, bw: u32) -> (r: Result<(), Halt>)
        ensures
            (Run { state: final(self)@, port: final(port)@, flow: flow_of(r) })
                == try_bw_run::<T>(old(self)@, old(port)@, bw),
    {
        if let Some(tuner) = &mut self.tuner {
            usb::set_i2c_repeater(port, true)?;
            if let Err(Halt::Waiting) = tuner.set_bw(port, bw, self.rate) {
                return Err(Halt::Waiting);
            }
            usb::set_i2c_repeater(port, false)?;
        }
        Ok(())
    }

    /// Switches offset tuning, which sets the tuner below the centre frequency. It
    /// is refused for R82XX tuners, in direct sampling mode, and where the centre
    /// frequency does not lie above the offset; a refusal changes nothing.
    pub fn set_offset_tuning(&mut self, port: &mut Exchange, on: bool) -> (r: Result<(), Halt>)
        requires
            on && can_offset(old(self)@) ==> floor_fits(old(self)@.rate),
        ensures
            (Run { state: final(self)@, port: final(port)@, flow: flow_of(r) })
                == set_offset_tuning_run::<T>(old(self)@, old(port)@, on),
    {
        if let Some(e) = self.offset_error(self.rate, on) {
            return Err(Halt::Failed(e));
        }
        let offset: u32 = if on {
            offset_tuning_floor(self.rate)
        } else {
            0
        };
        self.offs_freq = offset;
        self.set_if_freq(port, offset)?;
        let bw: u32 = if on {
            2 * offset
        } else if self.bw > 0 {
            self.bw
        } else {
            self.rate
        };
        self.try_bw(port, bw)?;
        if self.freq > offset {
            let freq: u32 = self.freq;
            self.set_center_freq(port, freq)?;
        }
        Ok(())
    }
}

impl<T: Tuner> RtlSdrDevice<T> {
    fn retune(&mut self, port: &mut Exchange) -> (r: Result<(), Halt>)
        requires
            old(self)@.tuner is Some,
        ensures
            (Run { state: final(self)@, port: final(port)@, flow: flow_of(r) })
                == retune_run::<T>(old(self)@, old(self)@.tuner->0, old(port)@),
    {
        if self.freq == 0 {
            return Ok(());
        }
        let lo: u32 = match freq_minus_offset(self.freq, self.offs_freq) {
            Ok(lo) => lo,
            Err(_) => {
                self.freq = 0;
                return Ok(());
            },
        };
        if let Some(tuner) = &mut self.tuner {
            match tuner.set_freq(port, lo) {
                Ok(_) => {},
                Err(Halt::Waiting) => {
                    return Err(Halt::Waiting);
                },
                Err(Halt::Failed(_)) => {
                    self.freq = 0;
                },
            }
        }
        Ok(())
    }

    fn follow_bw(&mut self, port: &mut Exchange, if_freq: u32) -> (r: Result<(), Halt>)
        requires
            old(self)@.tuner is Some,
        ensures
            (Run { state: final(self)@, port: final(port)@, flow: flow_of(r) })
                == follow_bw_run::<T>(old(self)@, old(self)@.tuner->0, old(port)@, if_freq),
    {
        if if_freq != 0 {
            if let Err(Halt::Waiting) = self.set_if_freq(port, if_freq) {
                return Err(Halt::Waiting);
            }
        }
        self.retune(port)
    }

    fn change_bw(&mut self, port: &mut Exchange, bw: u32) -> (r: Result<
        Result<(), RtlSdrError>,
        Halt,
    >)
        requires
            old(self)@.tuner is Some,
        ensures
            ({
                let b = change_bw_run::<T>(old(self)@, old(self)@.tuner->0, old(port)@, bw);
                &&& final(self)@ == b.state
                &&& final(port)@ == b.port
                &&& b.flow == (match r {
                    Ok(Ok(_)) => Flow::Done(Flow::Done(())),
                    Ok(Err(e)) => Flow::Done(Flow::Failed(e@)),
                    Err(Halt::Failed(e)) => Flow::Failed(e@),
                    Err(Halt::Waiting) => Flow::Waiting,
                })
            }),
    {
        usb::set_i2c_repeater(port, true)?;
        let rate: u32 = self.rate;
        let set: Result<u32, Halt> = match &mut self.tuner {
            Some(tuner) => tuner.set_bw(port, bw, rate),
            None => Ok(0),
        };
        let outcome: Result<(), RtlSdrError> = match set {
            Ok(if_freq) => {
                self.follow_bw(port, if_freq)?;
                Ok(())
            },
            Err(Halt::Waiting) => {
                return Err(Halt::Waiting);
            },
            Err(Halt::Failed(e)) => Err(e),
        };
        usb::set_i2c_repeater(port, false)?;
        Ok(outcome)
    }

    fn follow_rate(&mut self, port: &mut Exchange) -> (r: Result<(), Halt>)
        ensures
            (Run { state: final(self)@, port: final(port)@, flow: flow_of(r) })
                == follow_rate_run::<T>(old(self)@, old(port)@),
    {
        if self.tuner.is_some() {
            let bw: u32 = if self.bw > 0 {
                self.bw
            } else {
                self.rate
            };
            let _ = self.change_bw(port, bw)?;
        }
        Ok(())
    }

    /// Sets the tuner's bandwidth in Hz; zero has it follow the sample rate. The
    /// bandwidth is kept only where the tuner took it. The intermediate frequency
    /// and the centre frequency are set anew as far as possible.
    pub fn set_tuner_bandwidth(&mut self, port: &mut Exchange, bw: u32) -> (r: Result<(), Halt>)
        ensures
            (Run { state: final(self)@, port: final(port)@, flow: flow_of(r) })
                == set_tuner_bandwidth_run::<T>(old(self)@, old(port)@, bw),
    {
        if self.tuner.is_none() {
            return Ok(());
        }
        let wanted: u32 = if bw > 0 {
            bw
        } else {
            self.rate
        };
        match self.change_bw(port, wanted)? {
            Ok(_) => {
                self.bw = bw;
                Ok(())
            },
            Err(e) => Err(Halt::Failed(e)),
        }
    }

    /// Sets the sample rate in Hz: from 225001 to 300000, or from 900001 to
    /// 3200000. The rate that is kept is the one that the demodulator really takes.
    /// With offset tuning on, a rate at which it would be refused is refused before
    /// anything changes.
    pub fn set_sample_rate(&mut self, port: &mut Exchange, samp_rate: u32) -> (r: Result<(), Halt>)
        requires
            old(self)@.offs_freq > 0 && can_offset(old(self)@) && is_sample_rate(samp_rate)
                ==> floor_fits(
                rate_of_ratio(
                    old(self)@.rtl_xtal,
                    resample_ratio(old(self)@.rtl_xtal, samp_rate),
                ),
            ),
        ensures
            (Run { state: final(self)@, port: final(port)@, flow: flow_of(r) })
                == set_sample_rate_run::<T>(old(self)@, old(port)@, samp_rate),
    {
        if !is_valid_sample_rate(samp_rate) {
            return Err(Halt::Failed(RtlSdrError::InvalidSampleRate { rate_hz: samp_rate }));
        }
        let ratio: u32 = ratio_for(self.rtl_xtal, samp_rate);
        let rate: u32 = rate_for_ratio(self.rtl_xtal, ratio);
        if self.offs_freq > 0 {
            if let Some(e) = self.offset_error(rate, true) {
                return Err(Halt::Failed(e));
            }
        }
        self.rate = rate;
        proof {
            follow_rate_keeps_the_rest::<T>(self@, port@);
        }
        self.follow_rate(port)?;
        program_rate(port, ratio, self.corr)?;
        if self.offs_freq > 0 {
            self.set_offset_tuning(port, true)?;
        }
        Ok(())
    }
}

/// Setting the tuner agrees with itself when answers come later.
pub proof fn tune_resumes<T: Tuner>(
    d: Dongle<T::Model>,
    m: T::Model,
    p: Port,
    freq: u32,
    more: Seq<Answer>,
)
    ensures
        resumes(p, tune_run::<T>(d, m, p, freq), tune_run::<T>(d, m, later(p, more), freq), more),
{
    set_i2c_repeater_resumes(p, true, more);
    let early = set_i2c_repeater_run(p, true);
    let late = set_i2c_repeater_run(later(p, more), true);
    in_step(early.port, late.port, more);
    let lo = (freq - d.offs_freq) as u32;
    T::set_freq_resumes(m, early.port, lo, more);
    T::set_freq_resumes(m, late.port, lo, Seq::empty());
    let early2 = T::set_freq_run(m, early.port, lo);
    let late2 = T::set_freq_run(m, late.port, lo);
    in_step(early2.port, late2.port, more);
    set_i2c_repeater_resumes(early2.port, false, more);
    set_i2c_repeater_resumes(late2.port, false, Seq::empty());
}

/// Setting the centre frequency agrees with itself when answers come later.
pub proof fn set_center_freq_resumes<T: Tuner>(
    d: Dongle<T::Model>,
    p: Port,
    freq: u32,
    more: Seq<Answer>,
)
    ensures
        resumes(
            p,
            set_center_freq_run::<T>(d, p, freq),
            set_center_freq_run::<T>(d, later(p, more), freq),
            more,
        ),
{
    set_if_freq_resumes(p, d.rtl_xtal, d.corr, freq, more);
    if let Some(m) = d.tuner {
        tune_resumes::<T>(d, m, p, freq, more);
    }
}

/// Correcting the crystals agrees with itself when answers come later.
pub proof fn set_freq_correction_resumes<T: Tuner>(
    d: Dongle<T::Model>,
    p: Port,
    ppm: i32,
    more: Seq<Answer>,
)
    ensures
        resumes(
            p,
            set_freq_correction_run::<T>(d, p, ppm),
            set_freq_correction_run::<T>(d, later(p, more), ppm),
            more,
        ),
{
    set_sample_freq_correction_resumes(p, ppm, more);
    let early = set_sample_freq_correction_run(p, ppm);
    let late = set_sample_freq_correction_run(later(p, more), ppm);
    in_step(early.port, late.port, more);
    let d2 = Dongle {
        tuner: match d.tuner {
            Some(m) => Some(T::with_xtal(m, corrected(d.tun_xtal, ppm) as u32)),
            None => None,
        },
        corr: ppm,
        ..d
    };
    set_center_freq_resumes::<T>(d2, early.port, d.freq, more);
    set_center_freq_resumes::<T>(d2, late.port, d.freq, Seq::empty());
}

/// Setting the tuner's bandwidth alone agrees with itself when answers come later.
pub proof fn try_bw_resumes<T: Tuner>(
    d: Dongle<T::Model>,
    p: Port,
    bw: u32,
    more: Seq<Answer>,
)
    ensures
        resumes(p, try_bw_run::<T>(d, p, bw), try_bw_run::<T>(d, later(p, more), bw), more),
{
    if let Some(m) = d.tuner {
        set_i2c_repeater_resumes(p, true, more);
        let early = set_i2c_repeater_run(p, true);
        let late = set_i2c_repeater_run(later(p, more), true);
        in_step(early.port, late.port, more);
        T::set_bw_resumes(m, early.port, bw, d.rate, more);
        T::set_bw_resumes(m, late.port, bw, d.rate, Seq::empty());
        let early2 = T::set_bw_run(m, early.port, bw, d.rate);
        let late2 = T::set_bw_run(m, late.port, bw, d.rate);
        in_step(early2.port, late2.port, more);
        set_i2c_repeater_resumes(early2.port, false, more);
        set_i2c_repeater_resumes(late2.port, false, Seq::empty());
    }
}

/// Switching offset tuning agrees with itself when answers come later.
pub proof fn set_offset_tuning_resumes<T: Tuner>(
    d: Dongle<T::Model>,
    p: Port,
    on: bool,
    more: Seq<Answer>,
)
    ensures
        resumes(
            p,
            set_offset_tuning_run::<T>(d, p, on),
            set_offset_tuning_run::<T>(d, later(p, more), on),
            more,
        ),
{
    let offset: u32 = if on {
        tuning_floor(d.rate) as u32
    } else {
        0
    };
    let d1 = Dongle { offs_freq: offset, ..d };
    set_if_freq_resumes(p, d.rtl_xtal, d.corr, offset, more);
    let early = set_if_freq_run(p, d.rtl_xtal, d.corr, offset);
    let late = set_if_freq_run(later(p, more), d.rtl_xtal, d.corr, offset);
    in_step(early.port, late.port, more);
    let bw = if on {
        (2 * offset) as u32
    } else {
        bw_in_force(d)
    };
    try_bw_resumes::<T>(d1, early.port, bw, more);
    try_bw_resumes::<T>(d1, late.port, bw, Seq::empty());
    let early2 = try_bw_run::<T>(d1, early.port, bw);
    let late2 = try_bw_run::<T>(d1, late.port, bw);
    in_step(early2.port, late2.port, more);
    set_center_freq_resumes::<T>(early2.state, early2.port, d.freq, more);
    set_center_freq_resumes::<T>(late2.state, late2.port, d.freq, Seq::empty());
}

/// Tuning again agrees with itself when answers come later.
pub proof fn retune_resumes<T: Tuner>(
    d: Dongle<T::Model>,
    m: T::Model,
    p: Port,
    more: Seq<Answer>,
)
    ensures
        resumes(p, retune_run::<T>(d, m, p), retune_run::<T>(d, m, later(p, more)), more),
{
    T::set_freq_resumes(m, p, (d.freq - d.offs_freq) as u32, more);
}

/// What follows a change of the bandwidth agrees with itself when answers come
/// later.
pub proof fn follow_bw_resumes<T: Tuner>(
    d: Dongle<T::Model>,
    m: T::Model,
    p: Port,
    if_freq: u32,
    more: Seq<Answer>,
)
    ensures
        resumes(
            p,
            follow_bw_run::<T>(d, m, p, if_freq),
            follow_bw_run::<T>(d, m, later(p, more), if_freq),
            more,
        ),
{
    retune_resumes::<T>(d, m, p, more);
    set_if_freq_resumes(p, d.rtl_xtal, d.corr, if_freq, more);
    let early = set_if_freq_run(p, d.rtl_xtal, d.corr, if_freq);
    let late = set_if_freq_run(later(p, more), d.rtl_xtal, d.corr, if_freq);
    in_step(early.port, late.port, more);
    retune_resumes::<T>(d, m, early.port, more);
    retune_resumes::<T>(d, m, late.port, Seq::empty());
}

/// Changing the bandwidth agrees with itself when answers come later.
pub proof fn change_bw_resumes<T: Tuner>(
    d: Dongle<T::Model>,
    m: T::Model,
    p: Port,
    bw: u32,
    more: Seq<Answer>,
)
    ensures
        resumes(
            p,
            change_bw_run::<T>(d, m, p, bw),
            change_bw_run::<T>(d, m, later(p, more), bw),
            more,
        ),
{
    set_i2c_repeater_resumes(p, true, more);
    let early = set_i2c_repeater_run(p, true);
    let late = set_i2c_repeater_run(later(p, more), true);
    in_step(early.port, late.port, more);
    T::set_bw_resumes(m, early.port, bw, d.rate, more);
    T::set_bw_resumes(m, late.port, bw, d.rate, Seq::empty());
    let early2 = lifted(d, T::set_bw_run(m, early.port, bw, d.rate));
    let late2 = lifted(d, T::set_bw_run(m, late.port, bw, d.rate));
    in_step(early2.port, late2.port, more);
    set_i2c_repeater_resumes(early2.port, false, more);
    set_i2c_repeater_resumes(late2.port, false, Seq::empty());
    if let Flow::Done(if_freq) = early2.flow {
        follow_bw_resumes::<T>(early2.state, early2.state.tuner->0, early2.port, if_freq, more);
        let early3 = follow_bw_run::<T>(
            early2.state,
            early2.state.tuner->0,
            early2.port,
            if_freq,
        );
        let late3 = follow_bw_run::<T>(
            early2.state,
            early2.state.tuner->0,
            later(early2.port, more),
            if_freq,
        );
        in_step(early3.port, late3.port, more);
        set_i2c_repeater_resumes(early3.port, false, more);
        set_i2c_repeater_resumes(late3.port, false, Seq::empty());
    }
    if let Flow::Done(if_freq) = late2.flow {
        follow_bw_resumes::<T>(
            late2.state,
            late2.state.tuner->0,
            late2.port,
            if_freq,
            Seq::empty(),
        );
        let late3 = follow_bw_run::<T>(late2.state, late2.state.tuner->0, late2.port, if_freq);
        in_step(late3.port, late3.port, more);
        set_i2c_repeater_resumes(late3.port, false, Seq::empty());
    }
}

/// Setting the bandwidth agrees with itself when answers come later.
pub proof fn set_tuner_bandwidth_resumes<T: Tuner>(
    d: Dongle<T::Model>,
    p: Port,
    bw: u32,
    more: Seq<Answer>,
)
    ensures
        resumes(
            p,
            set_tuner_bandwidth_run::<T>(d, p, bw),
            set_tuner_bandwidth_run::<T>(d, later(p, more), bw),
            more,
        ),
{
    if let Some(m) = d.tuner {
        let wanted = if bw > 0 {
            bw
        } else {
            d.rate
        };
        change_bw_resumes::<T>(d, m, p, wanted, more);
    }
}

/// Setting the sample rate agrees with itself when answers come later.
pub proof fn set_sample_rate_resumes<T: Tuner>(
    d: Dongle<T::Model>,
    p: Port,
    rate: u32,
    more: Seq<Answer>,
)
    ensures
        resumes(
            p,
            set_sample_rate_run::<T>(d, p, rate),
            set_sample_rate_run::<T>(d, later(p, more), rate),
            more,
        ),
{
    let ratio = resample_ratio(d.rtl_xtal, rate);
    let d1 = Dongle { rate: rate_of_ratio(d.rtl_xtal, ratio), ..d };
    if let Some(m) = d.tuner {
        change_bw_resumes::<T>(d1, m, p, bw_in_force(d1), more);
    }
    let early = follow_rate_run::<T>(d1, p);
    let late = follow_rate_run::<T>(d1, later(p, more));
    in_step(early.port, late.port, more);
    let steps = rate_steps(ratio, d.corr);
    steps_resume(early.port, steps, more);
    steps_resume(late.port, steps, Seq::empty());
    let early2 = steps_run(early.port, steps);
    let late2 = steps_run(late.port, steps);
    in_step(early2.port, late2.port, more);
    set_offset_tuning_resumes::<T>(early.state, early2.port, true, more);
    set_offset_tuning_resumes::<T>(late.state, late2.port, true, Seq::empty());
}

/// After setting the centre frequency the device counts it as set where it was
/// set, and none or the former one where it was not.
pub proof fn center_freq_is_never_a_guess<T: Tuner>(d: Dongle<T::Model>, p: Port, freq: u32)
    ensures
        ({
            let r = set_center_freq_run::<T>(d, p, freq);
            match r.flow {
                Flow::Done(_) => r.state.freq == freq,
                Flow::Failed(_) => r.state.freq == 0 || r.state.freq == d.freq,
                Flow::Waiting => r.state.freq == d.freq,
            }
        }),
{
}

/// Where the tuner itself refuses a centre frequency, none counts as set.
pub proof fn refused_center_freq_is_forgotten<T: Tuner>(
    d: Dongle<T::Model>,
    m: T::Model,
    p: Port,
    freq: u32,
)
    requires
        d.direct_sampling == 0,
        d.tuner == Some(m),
        d.offs_freq <= freq,
        ({
            let o = set_i2c_repeater_run(p, true);
            let t = T::set_freq_run(m, o.port, (freq - d.offs_freq) as u32);
            &&& o.flow is Done
            &&& t.flow is Failed
            &&& set_i2c_repeater_run(t.port, false).flow is Done
        }),
    ensures
        ({
            let o = set_i2c_repeater_run(p, true);
            let t = T::set_freq_run(m, o.port, (freq - d.offs_freq) as u32);
            let r = set_center_freq_run::<T>(d, p, freq);
            &&& r.state.freq == 0
            &&& r.flow == Flow::<()>::Failed(t.flow->Failed_0)
        }),
{
}

/// Refused offset tuning leaves the device as it was and asks for no transfer.
pub proof fn refused_offset_tuning_changes_nothing<T: Tuner>(
    d: Dongle<T::Model>,
    p: Port,
    on: bool,
)
    requires
        offset_fault(d, on) is Some,
    ensures
        ({
            let r = set_offset_tuning_run::<T>(d, p, on);
            &&& r.state == d
            &&& r.port == p
            &&& r.flow is Failed
        }),
{
}

/// A refused sample rate leaves the device as it was and asks for no transfer; and
/// one that is not refused at first is not refused later, when offset tuning
/// follows it.
pub proof fn sample_rate_is_refused_first_or_never<T: Tuner>(
    d: Dongle<T::Model>,
    p: Port,
    rate: u32,
)
    ensures
        ({
            let d1 = Dongle {
                rate: rate_of_ratio(d.rtl_xtal, resample_ratio(d.rtl_xtal, rate)),
                ..d
            };
            let refused = !is_sample_rate(rate) || (d.offs_freq > 0 && offset_fault(
                d1,
                true,
            ) is Some);
            let r = set_sample_rate_run::<T>(d, p, rate);
            &&& refused ==> r.state == d && r.port == p && r.flow is Failed
            &&& !refused && d.offs_freq > 0 ==> offset_fault(
                follow_rate_run::<T>(d1, p).state,
                true,
            ) is None
        }),
{
    let d1 = Dongle { rate: rate_of_ratio(d.rtl_xtal, resample_ratio(d.rtl_xtal, rate)), ..d };
    follow_rate_keeps_the_rest::<T>(d1, p);
}

/// The bandwidth changes only where setting it succeeds, and then to what was
/// asked for.
pub proof fn bandwidth_is_kept_only_on_success<T: Tuner>(d: Dongle<T::Model>, p: Port, bw: u32)
    requires
        d.tuner is Some,
    ensures
        ({
            let r = set_tuner_bandwidth_run::<T>(d, p, bw);
            r.state.bw == (if r.flow is Done {
                bw
            } else {
                d.bw
            })
        }),
{
}

/// With the nominal crystal, or up to 31 Hz above it, every rate that is accepted
/// is met to the Hz.
pub proof fn nominal_sample_rates_are_exact(xtal: u32, rate: u32)
    requires
        DEF_RTL_XTAL_FREQ <= xtal <= DEF_RTL_XTAL_FREQ + 31,
        is_sample_rate(rate),
    ensures
        rate_of_ratio(xtal, resample_ratio(xtal, rate)) == rate,
{
    let x = xtal * 0x40_0000;
    let q = x / (rate as int);
    vstd::arithmetic::div_mod::lemma_fundamental_div_mod(x, rate as int);
    let rem = x % (rate as int);
    assert(x == rate * q + rem);
    assert(0 <= rem < rate);
    assert(37_748_736 <= q < 0x2000_0000) by (nonlinear_arith)
        requires
            x == rate * q + rem,
            0 <= rem < rate,
            225_000 < rate <= 3_200_000,
            28_800_000 * 0x40_0000 <= x <= 28_800_031 * 0x40_0000,
    ;
    if rate <= 300_000 {
        assert(q >= 0x1800_0000) by (nonlinear_arith)
            requires
                x == rate * q + rem,
                0 <= rem < rate,
                0 < rate <= 300_000,
                28_800_000 * 0x40_0000 <= x,
        ;
    } else {
        assert(q < 0x0800_0000) by (nonlinear_arith)
            requires
                x == rate * q + rem,
                0 <= rem < rate,
                900_000 < rate,
                x <= 28_800_031 * 0x40_0000,
        ;
    }
    let w = q as u32;
    let ratio = w & 0x0fff_fffc;
    assert(ratio | ((ratio & 0x0800_0000) << 1) == w - w % 4) by (bit_vector)
        requires
            ratio == w & 0x0fff_fffc,
            w < 0x0800_0000 || (0x1800_0000 <= w && w < 0x2000_0000),
    ;
    let taken = q - q % 4;
    assert(rate * taken <= x < (rate + 1) * taken) by (nonlinear_arith)
        requires
            x == rate * q + rem,
            0 <= rem < rate,
            q - 3 <= taken <= q,
            0 < rate <= 3_200_000,
            q >= 37_748_736,
    ;
    assert((rate + 1) * taken == rate * taken + taken) by (nonlinear_arith);
    vstd::arithmetic::div_mod::lemma_fundamental_div_mod_converse(
        x,
        taken,
        rate as int,
        x - rate * taken,
    );
}

} // verus!
