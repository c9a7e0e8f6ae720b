//! The dongle: demodulator and tuner as one device.

pub mod enumerate;
pub mod frequency;
pub mod gain;
pub mod invariants;
pub mod meaning;
pub mod reader;
pub mod repeater;
pub mod sampling;
pub mod streaming;
pub mod success;
pub mod tuned;

use std::sync::atomic::AtomicBool;
use std::sync::Arc;

use vstd::prelude::*;

use crate::device::reader::made_clear;
use crate::exchange::{flow_of, later, resumes, Answer, Exchange, Halt, Port, Run};
use crate::reg::TunerType;
use crate::tuner::Tuner;
use crate::usb;
use crate::usb::{steps_resume, steps_run, RegStep};

verus! {

/// The state of a dongle, without its samples.
#[derive(Clone)]
pub struct RtlSdrDevice<T> {
    /// Driver of the tuner, where one was found.
    pub tuner: Option<T>,
    pub tuner_type: TunerType,
    /// Crystal of the demodulator in Hz.
    pub rtl_xtal: u32,
    /// Crystal of the tuner in Hz.
    pub tun_xtal: u32,
    /// Sample rate in Hz.
    pub rate: u32,
    /// Bandwidth in Hz; zero where it follows the sample rate.
    pub bw: u32,
    /// Centre frequency in Hz; zero where none is set.
    pub freq: u32,
    /// Offset of the tuner below the centre frequency; zero without offset tuning.
    pub offs_freq: u32,
    /// Correction of the crystals in ppm.
    pub corr: i32,
    /// Gain in tenths of dB.
    pub gain: i32,
    /// Direct sampling: off, the first input, the second input.
    pub direct_sampling: i32,
    /// Set while samples are being read.
    pub reader_busy: Arc<AtomicBool>,
    /// Set once the dongle has gone.
    pub dev_lost: Arc<AtomicBool>,
}

/// The state of a dongle as a value of the model.
pub struct Dongle<M> {
    pub tuner: Option<M>,
    pub tuner_type: TunerType,
    pub rtl_xtal: u32,
    pub tun_xtal: u32,
    pub rate: u32,
    pub bw: u32,
    pub freq: u32,
    pub offs_freq: u32,
    pub corr: i32,
    pub gain: i32,
    pub direct_sampling: i32,
    /// The flags themselves, not what they hold.
    pub reader_busy: Arc<AtomicBool>,
    pub dev_lost: Arc<AtomicBool>,
}

/// The frequency `val` corrected by `ppm` parts in a million, as far as a number
/// can hold it.
pub open spec fn corrected(val: u32, ppm: i32) -> int {
    let x = val * (1_000_000 + ppm) / 1_000_000;
    if x < 0 {
        0
    } else if x > u32::MAX {
        u32::MAX as int
    } else {
        x
    }
}

fn correct(val: u32, ppm: i32) -> (r: u32)
    ensures
        r == corrected(val, ppm),
{
    let factor: i64 = 1_000_000 + ppm as i64;
    if factor <= 0 {
        proof {
            assert(val * factor <= 0) by (nonlinear_arith)
                requires
                    val >= 0,
                    factor <= 0,
            ;
        }
        return 0;
    }
    assert(0 <= val * factor <= 0xffff_ffff * 0x8010_0000) by (nonlinear_arith)
        requires
            0 <= val <= 0xffff_ffff,
            0 <= factor <= 0x8010_0000,
    ;
    let x: u64 = (val as u64 * factor as u64) / 1_000_000;
    if x > u32::MAX as u64 {
        u32::MAX
    } else {
        x as u32
    }
}

/// The 22 bits that set the demodulator to the intermediate frequency `freq`: its
/// ratio to the crystal in units of 2^-22, negated. A ratio of 512 and more gives
/// zero, and so does a crystal of zero.
pub open spec fn if_word(freq: u32, xtal: int) -> int {
    let ratio = freq * 0x40_0000 / xtal;
    if xtal == 0 || ratio >= 0x8000_0000 {
        0
    } else {
        (-ratio) % 0x40_0000
    }
}

/// The writes that set the intermediate frequency.
pub open spec fn if_freq_steps(word: int) -> Seq<RegStep> {
    seq![
        RegStep::Demod { page: 1, addr: 0x19, val: (word / 65536) as u16, len: 1 },
        RegStep::Demod { page: 1, addr: 0x1a, val: ((word / 256) % 256) as u16, len: 1 },
        RegStep::Demod { page: 1, addr: 0x1b, val: (word % 256) as u16, len: 1 },
    ]
}

/// Setting the intermediate frequency of the demodulator.
pub open spec fn set_if_freq_run(p: Port, rtl_xtal: u32, corr: i32, freq: u32) -> Run<(), ()> {
    steps_run(p, if_freq_steps(if_word(freq, corrected(rtl_xtal, corr))))
}

fn word_of_if(freq: u32, xtal: u32) -> (r: u32)
    ensures
        r == if_word(freq, xtal as int),
        r < 0x40_0000,
{
    if xtal == 0 {
        return 0;
    }
    let ratio: u64 = freq as u64 * 0x40_0000 / xtal as u64;
    if ratio >= 0x8000_0000 {
        return 0;
    }
    ((0x40_0000 - ratio % 0x40_0000) % 0x40_0000) as u32
}

/// The correction of the sample clock for `ppm`, in units of 2^-24, as far as 16
/// bits can hold it.
pub open spec fn clock_offset(ppm: i32) -> int {
    let size = (if ppm < 0 {
        -(ppm as int)
    } else {
        ppm as int
    }) * 0x100_0000 / 1_000_000;
    if ppm < 0 {
        if size > 32767 {
            32767
        } else {
            size
        }
    } else {
        if size > 32768 {
            -32768
        } else {
            -size
        }
    }
}

/// The writes that correct the sample clock.
pub open spec fn clock_steps(offset: int) -> Seq<RegStep> {
    seq![
        RegStep::Demod { page: 1, addr: 0x3f, val: (offset % 256) as u16, len: 1 },
        RegStep::Demod { page: 1, addr: 0x3e, val: ((offset / 256) % 64) as u16, len: 1 },
    ]
}

/// Correcting the sample clock.
pub open spec fn set_sample_freq_correction_run(p: Port, ppm: i32) -> Run<(), ()> {
    steps_run(p, clock_steps(clock_offset(ppm)))
}

pub(crate) fn offset_of_clock(ppm: i32) -> (r: i32)
    ensures
        r == clock_offset(ppm),
        -32768 <= r <= 32767,
{
    if ppm < 0 {
        let size: i64 = -(ppm as i64) * 0x100_0000 / 1_000_000;
        if size > 32767 {
            32767
        } else {
            size as i32
        }
    } else {
        let size: i64 = ppm as i64 * 0x100_0000 / 1_000_000;
        if size > 32768 {
            -32768
        } else {
            -(size as i32)
        }
    }
}

impl<T: Tuner> RtlSdrDevice<T> {
    pub open spec fn view(&self) -> Dongle<T::Model> {
        Dongle {
            tuner: match self.tuner {
                Some(t) => Some(t.model()),
                None => None,
            },
            tuner_type: self.tuner_type,
            rtl_xtal: self.rtl_xtal,
            tun_xtal: self.tun_xtal,
            rate: self.rate,
            bw: self.bw,
            freq: self.freq,
            offs_freq: self.offs_freq,
            corr: self.corr,
            gain: self.gain,
            direct_sampling: self.direct_sampling,
            reader_busy: self.reader_busy,
            dev_lost: self.dev_lost,
        }
    }

    /// Makes the device of a dongle whose baseband and tuner are initialised.
    pub fn new(tuner: Option<T>, tuner_type: TunerType, rtl_xtal: u32, tun_xtal: u32) -> (r: Self)
        ensures
            r@ == (Dongle {
                tuner: match tuner {
                    Some(t) => Some(t.model()),
                    None => None,
                },
                tuner_type,
                rtl_xtal,
                tun_xtal,
                rate: 0,
                bw: 0,
                freq: 0,
                offs_freq: 0,
                corr: 0,
                gain: 0,
                direct_sampling: 0,
                reader_busy: r.reader_busy,
                dev_lost: r.dev_lost,
            }),
            made_clear(r.reader_busy),
            made_clear(r.dev_lost),
    {
        RtlSdrDevice {
            tuner,
            tuner_type,
            rtl_xtal,
            tun_xtal,
            rate: 0,
            bw: 0,
            freq: 0,
            offs_freq: 0,
            corr: 0,
            gain: 0,
            direct_sampling: 0,
            reader_busy: Arc::new(AtomicBool::new(false)),
            dev_lost: Arc::new(AtomicBool::new(false)),
        }
    }

    /// Returns the frequency of the tuner's crystal, corrected.
    pub fn get_tuner_xtal(&self) -> (r: u32)
        ensures
            r == corrected(self@.tun_xtal, self@.corr),
    {
        correct(self.tun_xtal, self.corr)
    }

    /// Sets the intermediate frequency of the demodulator.
    pub fn set_if_freq(&self, port: &mut Exchange, freq: u32) -> (r: Result<(), Halt>)
        ensures
            (Run { state: (), port: final(port)@, flow: flow_of(r) }) == set_if_freq_run(
                old(port)@,
                self@.rtl_xtal,
                self@.corr,
                freq,
            ),
    {
        let word: u32 = word_of_if(freq, correct(self.rtl_xtal, self.corr));
        let steps: [RegStep; 3] = [
            RegStep::Demod { page: 1, addr: 0x19, val: (word / 65536) as u16, len: 1 },
            RegStep::Demod { page: 1, addr: 0x1a, val: ((word / 256) % 256) as u16, len: 1 },
            RegStep::Demod { page: 1, addr: 0x1b, val: (word % 256) as u16, len: 1 },
        ];
        assert(steps@ =~= if_freq_steps(word as int));
        usb::apply(port, &steps)
    }

    /// Corrects the sample clock by `ppm` parts in a million.
    pub fn set_sample_freq_correction(&self, port: &mut Exchange, ppm: i32) -> (r: Result<
        (),
        Halt,
    >)
        ensures
            (Run { state: (), port: final(port)@, flow: flow_of(r) })
                == set_sample_freq_correction_run(old(port)@, ppm),
    {
        let offset: i32 = offset_of_clock(ppm);
        let steps: [RegStep; 2] = [
            RegStep::Demod { page: 1, addr: 0x3f, val: ((offset + 65536) % 256) as u16, len: 1 },
            RegStep::Demod {
                page: 1,
                addr: 0x3e,
                val: (((offset + 65536) / 256) % 64) as u16,
                len: 1,
            },
        ];
        assert(steps@ =~= clock_steps(offset as int));
        usb::apply(port, &steps)
    }
}

/// The word of an intermediate frequency below the crystal's holds the ratio of the
/// two in units of 2^-22, rounded down.
pub proof fn if_word_holds_the_ratio(freq: u32, xtal: u32)
    requires
        freq < xtal,
    ensures
        ({
            let ratio = (0x40_0000 - if_word(freq, xtal as int)) % 0x40_0000;
            ratio * xtal <= freq * 0x40_0000 < (ratio + 1) * xtal
        }),
{
    let x = freq * 0x40_0000;
    let q = x / (xtal as int);
    vstd::arithmetic::div_mod::lemma_fundamental_div_mod(x, xtal as int);
    let rem = x % (xtal as int);
    assert(0 <= q < 0x40_0000) by (nonlinear_arith)
        requires
            x == xtal * q + rem,
            0 <= rem < xtal,
            0 <= x < xtal * 0x40_0000,
    ;
    assert(q * xtal <= x < (q + 1) * xtal) by (nonlinear_arith)
        requires
            x == xtal * q + rem,
            0 <= rem < xtal,
    ;
}

/// Setting the intermediate frequency agrees with itself when answers come later.
pub proof fn set_if_freq_resumes(
    p: Port,
    rtl_xtal: u32,
    corr: i32,
    freq: u32,
    more: Seq<Answer>,
)
    ensures
        resumes(
            p,
            set_if_freq_run(p, rtl_xtal, corr, freq),
            set_if_freq_run(later(p, more), rtl_xtal, corr, freq),
            more,
        ),
{
    steps_resume(p, if_freq_steps(if_word(freq, corrected(rtl_xtal, corr))), more);
}

/// Correcting the sample clock agrees with itself when answers come later.
pub proof fn set_sample_freq_correction_resumes(p: Port, ppm: i32, more: Seq<Answer>)
    ensures
        resumes(
            p,
            set_sample_freq_correction_run(p, ppm),
            set_sample_freq_correction_run(later(p, more), ppm),
            more,
        ),
{
    steps_resume(p, clock_steps(clock_offset(ppm)), more);
}

} // verus!
