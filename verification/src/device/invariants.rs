//! What the operations of a device keep, and what they leave behind.

use vstd::prelude::*;

use crate::device::frequency::{
    bw_in_force, follow_rate_keeps_the_rest, follow_rate_run, is_sample_rate, rate_of_ratio,
    rate_steps, resample_ratio, retune_run, set_center_freq_run, set_freq_correction_run,
    set_offset_tuning_run, set_sample_rate_run, try_bw_run, tuning_floor,
};
use crate::device::sampling::set_direct_sampling_run;
use crate::device::{corrected, set_if_freq_run, set_sample_freq_correction_run, Dongle};
use crate::exchange::{Flow, Port, Run};
use crate::tuner::Tuner;
use crate::usb::steps_run;

verus! {

/// A correction that is in force already is not sent again.
pub proof fn same_correction_sends_nothing<T: Tuner>(
    d: Dongle<T::Model>,
    p: Port,
    q: Port,
    ppm: i32,
)
    requires
        set_freq_correction_run::<T>(d, p, ppm).flow is Done,
    ensures
        ({
            let s = set_freq_correction_run::<T>(d, p, ppm).state;
            set_freq_correction_run::<T>(s, q, ppm) == (Run {
                state: s,
                port: q,
                flow: Flow::Done(()),
            })
        }),
{
}

/// Setting the centre frequency touches the tuner and the frequency, nothing else.
pub proof fn set_center_freq_keeps_the_rest<T: Tuner>(d: Dongle<T::Model>, p: Port, freq: u32)
    ensures
        ({
            let s = set_center_freq_run::<T>(d, p, freq).state;
            s == (Dongle { tuner: s.tuner, freq: s.freq, ..d })
        }),
{
}

/// Offset tuning that was switched leaves the offset that belongs to the sample
/// rate, or none; it touches the tuner and the frequency besides, nothing else.
pub proof fn offset_tuning_sets_the_offset<T: Tuner>(d: Dongle<T::Model>, p: Port, on: bool)
    requires
        set_offset_tuning_run::<T>(d, p, on).flow is Done,
    ensures
        ({
            let s = set_offset_tuning_run::<T>(d, p, on).state;
            s == (Dongle {
                tuner: s.tuner,
                freq: s.freq,
                offs_freq: if on {
                    tuning_floor(d.rate) as u32
                } else {
                    0
                },
                ..d
            })
        }),
{
    let offset: u32 = if on {
        tuning_floor(d.rate) as u32
    } else {
        0
    };
    let i = set_if_freq_run(p, d.rtl_xtal, d.corr, offset);
    let bw = if on {
        (2 * offset) as u32
    } else {
        bw_in_force(d)
    };
    let b = try_bw_run::<T>(Dongle { offs_freq: offset, ..d }, i.port, bw);
    set_center_freq_keeps_the_rest::<T>(b.state, b.port, d.freq);
}

/// A sample rate that was set is the one that the ratio gives; with offset tuning
/// on, the offset is the one that belongs to it. Bandwidth, correction, gain and
/// direct sampling stay as they were.
pub proof fn sample_rate_is_kept_with_its_offset<T: Tuner>(
    d: Dongle<T::Model>,
    p: Port,
    rate: u32,
)
    requires
        set_sample_rate_run::<T>(d, p, rate).flow is Done,
    ensures
        ({
            let s = set_sample_rate_run::<T>(d, p, rate).state;
            let real_rate = rate_of_ratio(d.rtl_xtal, resample_ratio(d.rtl_xtal, rate));
            &&& is_sample_rate(rate)
            &&& s == (Dongle {
                tuner: s.tuner,
                freq: s.freq,
                rate: real_rate,
                offs_freq: if d.offs_freq > 0 {
                    tuning_floor(real_rate) as u32
                } else {
                    0
                },
                ..d
            })
        }),
{
    let ratio = resample_ratio(d.rtl_xtal, rate);
    let d1 = Dongle { rate: rate_of_ratio(d.rtl_xtal, ratio), ..d };
    follow_rate_keeps_the_rest::<T>(d1, p);
    let b = follow_rate_run::<T>(d1, p);
    let s = steps_run(b.port, rate_steps(ratio, d.corr));
    if d.offs_freq > 0 {
        offset_tuning_sets_the_offset::<T>(b.state, s.port, true);
    }
}

/// The offset of the tuner is 85 percent of the sample rate, less than 2 Hz short.
pub proof fn offset_is_85_percent_of_the_rate(rate: u32)
    ensures
        85 * rate - 185 < 100 * tuning_floor(rate) <= 85 * rate,
{
}

/// Where tuning again fails, no frequency counts as set, and the operation that
/// asked for it goes on.
pub proof fn failed_retune_forgets_the_frequency<T: Tuner>(
    d: Dongle<T::Model>,
    m: T::Model,
    p: Port,
)
    requires
        d.freq < d.offs_freq || T::set_freq_run(
            m,
            p,
            (d.freq - d.offs_freq) as u32,
        ).flow is Failed,
    ensures
        retune_run::<T>(d, m, p).state.freq == 0,
        retune_run::<T>(d, m, p).flow == Flow::Done(()),
{
}

/// Corrections in force are the ones last asked for, and the tuner's crystal
/// follows them as soon as the sample clock has taken them.
pub proof fn correction_reaches_the_tuner<T: Tuner>(
    d: Dongle<T::Model>,
    m: T::Model,
    p: Port,
    ppm: i32,
)
    requires
        d.tuner == Some(m),
        d.corr != ppm,
        d.freq == 0,
        set_sample_freq_correction_run(p, ppm).flow is Done,
    ensures
        set_freq_correction_run::<T>(d, p, ppm).state == (Dongle {
            corr: ppm,
            tuner: Some(T::with_xtal(m, corrected(d.tun_xtal, ppm) as u32)),
            ..d
        }),
{
}

/// Switching direct sampling, once it went through, leaves the device in the mode
/// that was asked for, with the frequency that it had.
pub proof fn direct_sampling_keeps_the_frequency<T: Tuner>(d: Dongle<T::Model>, p: Port, on: i32)
    requires
        set_direct_sampling_run::<T>(d, p, on).flow is Done,
    ensures
        ({
            let s = set_direct_sampling_run::<T>(d, p, on).state;
            s == (Dongle { tuner: s.tuner, direct_sampling: on, ..d })
        }),
{
}

} // verus!
