//! A dongle with an R82XX tuner after its operations: what tuner and demodulator stand for
//! together.

use vstd::prelude::*;

use crate::device::{
    corrected, if_freq_steps, if_word, set_if_freq_resumes, set_if_freq_run,
    set_sample_freq_correction_resumes, set_sample_freq_correction_run, Dongle,
};
use crate::device::frequency::{
    bw_in_force, change_bw_run, follow_bw_resumes, follow_bw_run, follow_rate_run, lifted,
    rate_of_ratio, rate_steps, resample_ratio, retune_resumes, retune_run, set_center_freq_run,
    set_freq_correction_run, set_sample_rate_run, set_tuner_bandwidth_run,
};
use crate::device::gain::{set_tuner_gain_mode_run, set_tuner_gain_run};
use crate::device::meaning::{
    demod, demodulator_shifts_by_the_frequency, rate_steps_spare, repeater_spares_all_else,
    shift_stays, shifts_by, tuner_is_sampled,
};
use crate::device::sampling::set_direct_sampling_run;
use crate::exchange::{goes_on, in_turn, Answer, Flow, Port, Run, Transfer};
use crate::tuner::r82xx::{r82xx_set_freq_resumes, r82xx_set_freq_run, Chip, R82xxPriv};
use crate::tuner::r82xx::bandwidth::{band_plan, band_steps, r82xx_set_bw_resumes, r82xx_set_bw_run};
use crate::tuner::r82xx::constants::{R82xxChip, NUM_REGS};
use crate::tuner::r82xx::effect::init_leaves_a_known_state;
use crate::tuner::r82xx::front_end::{
    band_of, beside_the_frequency, faces, input_bits, input_is_noted, inputs_of, oscillator_for,
    tuner_is_tuned,
};
use crate::tuner::r82xx::meaning::{
    band_is_passed, gain_in, gain_is_manual, gain_mode_switches_both, is_automatic, is_manual,
    passes_band, register, registers_hold_the_gain,
};
use crate::tuner::r82xx::oscillator::{
    fine_in, fine_reference, on_reference, oscillates_at, status_read,
};
use crate::tuner::r82xx::setup::standby_switches_the_stages_off;
use crate::tuner::r82xx::silence::set_freq_leaves_it;
use crate::tuner::r82xx::success::taken_writes_go_through;
use crate::usb::{set_i2c_repeater_resumes, set_i2c_repeater_run, steps_resume, steps_run};
use crate::wire::{
    spared_demod_stays, spared_register_stays, spares_demod, taken_in_part, taken_steps_go_through,
    taken_whole, Place,
};

verus! {

/// Whether a tuner's driver is in order: it has its registers, and its note of the input
/// agrees with them.
pub open spec fn in_order(c: Chip) -> bool {
    &&& c.regs.len() == NUM_REGS
    &&& input_is_noted(c)
}

/// Whether a tuner receives the frequency `freq`: its local oscillator lies above it by the
/// intermediate frequency, its front end faces the oscillator, and its input is that of
/// the frequency.
pub open spec fn receives(c: Chip, freq: u32) -> bool {
    let lo = oscillator_for(c, freq);
    &&& in_order(c)
    &&& oscillates_at(c.regs, c.xtal, lo)
    &&& exists|i: int| #[trigger] faces(c.regs, c.xtal_cap_sel, lo, i)
    &&& c.is_blog_v4 ==> inputs_of(c.regs, band_of(freq as int))
    &&& !c.is_blog_v4 && c.rafael_chip == R82xxChip::R828D ==> input_bits(c.regs) == (if freq
        > 345_000_000 {
        0int
    } else {
        3int
    })
}

proof fn reference_in_part(c: Chip, early: Port, late: Port, from: int, later_from: int)
    requires
        on_reference(c, late, from),
        goes_on(early.sent, late.sent),
        early.replies == late.replies,
        0 <= from <= later_from,
    ensures
        on_reference(c, early, later_from),
{
    assert forall|k: int|
        later_from <= k < early.sent.len() && #[trigger] early.sent[k] == status_read(
            c.i2c_addr,
        ) implies (early.replies[k] matches Answer::Received(data) ==> fine_in(data)
        == fine_reference(c.rafael_chip)) by {
        assert(late.sent[k] == early.sent[k]);
    }
}

/// Setting the centre frequency, once it went through, leaves the device reporting that
/// frequency and the tuner receiving it, lower by the offset.
pub proof fn center_frequency_is_received(d: Dongle<Chip>, m: Chip, p: Port, freq: u32)
    requires
        d.tuner == Some(m),
        in_order(m),
        d.direct_sampling == 0,
        set_center_freq_run::<R82xxPriv>(d, p, freq).flow is Done,
        on_reference(
            m,
            set_center_freq_run::<R82xxPriv>(d, p, freq).port,
            p.sent.len() as int,
        ),
    ensures
        ({
            let s = set_center_freq_run::<R82xxPriv>(d, p, freq).state;
            &&& s.freq == freq
            &&& d.offs_freq <= freq
            &&& s.tuner matches Some(c) && receives(c, (freq - d.offs_freq) as u32) && c.int_freq
                == m.int_freq && c.xtal == m.xtal && forall|reg: int|
                beside_the_frequency(reg) ==> #[trigger] register(c.regs, reg) == register(
                    m.regs,
                    reg,
                )
        }),
{
    let r = set_center_freq_run::<R82xxPriv>(d, p, freq);
    let lo = (freq - d.offs_freq) as u32;
    let o = set_i2c_repeater_run(p, true);
    set_i2c_repeater_resumes(p, true, Seq::empty());
    let t = r82xx_set_freq_run(m, o.port, lo);
    r82xx_set_freq_resumes(m, o.port, lo, Seq::empty());
    set_i2c_repeater_resumes(t.port, false, Seq::empty());
    reference_in_part(m, t.port, r.port, p.sent.len() as int, o.port.sent.len() as int);
    tuner_is_tuned(m, o.port, lo);
    let c = t.state;
    assert(oscillator_for(c, lo) == oscillator_for(m, lo));
}

/// Setting the gain, once it went through, leaves the device reporting that gain and the
/// tuner's registers standing for it.
pub proof fn gain_is_held(d: Dongle<Chip>, m: Chip, p: Port, gain: i32)
    requires
        d.tuner == Some(m),
        m.regs.len() == NUM_REGS,
        set_tuner_gain_run::<R82xxPriv>(d, p, gain).flow is Done,
    ensures
        ({
            let s = set_tuner_gain_run::<R82xxPriv>(d, p, gain).state;
            &&& s.gain == gain
            &&& s.tuner matches Some(c) && is_manual(c.regs) && (1 <= gain <= 496 ==> gain
                <= gain_in(c.regs) < gain + 40) && (gain <= 0 ==> gain_in(c.regs) == 0) && (gain
                > 496 ==> gain_in(c.regs) == 496)
        }),
{
    let o = set_i2c_repeater_run(p, true);
    registers_hold_the_gain(m, o.port, gain);
    gain_is_manual(m, o.port, gain);
}

/// Switching the gain mode, once it went through, leaves the tuner in it.
pub proof fn gain_mode_is_held(d: Dongle<Chip>, m: Chip, p: Port, manual: bool)
    requires
        d.tuner == Some(m),
        m.regs.len() == NUM_REGS,
        set_tuner_gain_mode_run::<R82xxPriv>(d, p, manual).flow is Done,
    ensures
        ({
            let s = set_tuner_gain_mode_run::<R82xxPriv>(d, p, manual).state;
            s.tuner matches Some(c) && (manual ==> is_manual(c.regs)) && (!manual ==> is_automatic(
                c.regs,
            )) && gain_in(c.regs) == gain_in(m.regs)
        }),
{
    let o = set_i2c_repeater_run(p, true);
    gain_mode_switches_both(m, o.port, manual);
}

proof fn band_stays(before: Chip, after: Chip, bw: int)
    requires
        passes_band(before, bw),
        after.int_freq == before.int_freq,
        forall|reg: int|
            beside_the_frequency(reg) ==> #[trigger] register(after.regs, reg) == register(
                before.regs,
                reg,
            ),
    ensures
        passes_band(after, bw),
{
    assert(register(after.regs, 0x0a) == register(before.regs, 0x0a));
    assert(register(after.regs, 0x0b) == register(before.regs, 0x0b));
}

/// Whether the tuner `c` of a device and its demodulator are set for the bandwidth `bw`: the
/// tuner passes it, the demodulator shifts by the tuner's intermediate frequency, and the
/// tuner receives the centre frequency that the device reports, lower by the offset.
pub open spec fn band_is_set(d: Dongle<Chip>, c: Chip, sent: Seq<Transfer>, bw: u32) -> bool {
    let xtal = corrected(d.rtl_xtal, d.corr);
    &&& passes_band(c, bw as int)
    &&& c.int_freq < xtal ==> shifts_by(sent, xtal, c.int_freq as int)
    &&& d.freq > 0 ==> d.offs_freq <= d.freq && receives(c, (d.freq - d.offs_freq) as u32)
}

proof fn band_is_set_in_tuner(d: Dongle<Chip>, m: Chip, p: Port, bw: u32)
    requires
        in_order(m),
        bw < 0x8000_0000,
        r82xx_set_bw_run(m, p, bw).flow !is Waiting,
        taken_whole(r82xx_set_bw_run(m, p, bw).port, p.sent.len() as int),
    ensures
        ({
            let b = r82xx_set_bw_run(m, p, bw);
            &&& b.flow == Flow::Done(b.state.int_freq)
            &&& 1_000_000 < b.state.int_freq
            &&& passes_band(b.state, bw as int)
            &&& in_order(b.state)
            &&& b.state == (Chip { regs: b.state.regs, int_freq: b.state.int_freq, ..m })
        }),
{
    let plan = band_plan((bw as i32) as int);
    let start = Chip { int_freq: plan.int_freq, ..m };
    taken_writes_go_through(start, p, band_steps(plan));
    band_is_passed(m, p, bw);
}

proof fn shift_is_set(p: Port, rtl_xtal: u32, corr: i32, freq: u32)
    requires
        set_if_freq_run(p, rtl_xtal, corr, freq).flow !is Waiting,
        taken_whole(set_if_freq_run(p, rtl_xtal, corr, freq).port, p.sent.len() as int),
    ensures
        set_if_freq_run(p, rtl_xtal, corr, freq).flow is Done,
        freq < corrected(rtl_xtal, corr) ==> shifts_by(
            set_if_freq_run(p, rtl_xtal, corr, freq).port.sent,
            corrected(rtl_xtal, corr),
            freq as int,
        ),
{
    taken_steps_go_through(p, if_freq_steps(if_word(freq, corrected(rtl_xtal, corr))));
    if freq < corrected(rtl_xtal, corr) {
        demodulator_shifts_by_the_frequency(p, rtl_xtal, corr, freq);
    }
}

proof fn shift_survives(
    p: Port,
    t: Run<Dongle<Chip>, ()>,
    on: bool,
    xtal: int,
    freq: int,
)
    requires
        shifts_by(p.sent, xtal, freq),
        spares_demod(p, t),
    ensures
        shifts_by(set_i2c_repeater_run(t.port, on).port.sent, xtal, freq),
{
    let r = set_i2c_repeater_run(t.port, on);
    assert forall|addr: int| 0x19 <= addr <= 0x1b implies #[trigger] demod(r.port.sent, 1, addr)
        == demod(p.sent, 1, addr) by {
        let place = Place::Demod { page: 1, addr };
        spared_demod_stays(p, t, 1, addr);
        repeater_spares_all_else(t.port, on, 1, addr);
        spared_register_stays(t.port.sent, r.port.sent, place);
    }
    shift_stays(p.sent, r.port.sent, xtal, freq);
}

proof fn band_begins(d: Dongle<Chip>, m: Chip, p: Port, bw: u32)
    requires
        change_bw_run::<R82xxPriv>(d, m, p, bw).flow is Done,
    ensures
        ({
            let r = change_bw_run::<R82xxPriv>(d, m, p, bw);
            let o = set_i2c_repeater_run(p, true);
            let b = r82xx_set_bw_run(m, o.port, bw);
            &&& b.flow !is Waiting
            &&& goes_on(b.port.sent, r.port.sent)
            &&& b.port.replies == r.port.replies
            &&& p.sent.len() <= o.port.sent.len() <= b.port.sent.len()
        }),
{
    let o = set_i2c_repeater_run(p, true);
    set_i2c_repeater_resumes(p, true, Seq::empty());
    let b = r82xx_set_bw_run(m, o.port, bw);
    r82xx_set_bw_resumes(m, o.port, bw, Seq::empty());
    let l = lifted(d, b);
    if let Flow::Done(if_freq) = b.flow {
        follow_bw_resumes::<R82xxPriv>(l.state, b.state, b.port, if_freq, Seq::empty());
        let f = follow_bw_run::<R82xxPriv>(l.state, b.state, b.port, if_freq);
        set_i2c_repeater_resumes(f.port, false, Seq::empty());
        in_turn(b.port, f.port, set_i2c_repeater_run(f.port, false).port);
    } else {
        set_i2c_repeater_resumes(b.port, false, Seq::empty());
    }
}

proof fn band_goes_on(d: Dongle<Chip>, m: Chip, p: Port, bw: u32, if_freq: u32)
    requires
        change_bw_run::<R82xxPriv>(d, m, p, bw).flow is Done,
        r82xx_set_bw_run(m, set_i2c_repeater_run(p, true).port, bw).flow == Flow::Done(if_freq),
        if_freq > 0,
    ensures
        ({
            let r = change_bw_run::<R82xxPriv>(d, m, p, bw);
            let b = r82xx_set_bw_run(m, set_i2c_repeater_run(p, true).port, bw);
            let i = set_if_freq_run(b.port, d.rtl_xtal, d.corr, if_freq);
            let l = lifted(d, b);
            let f = retune_run::<R82xxPriv>(l.state, b.state, i.port);
            let c = set_i2c_repeater_run(f.port, false);
            &&& i.flow !is Waiting
            &&& f.flow is Done
            &&& r == (Run {
                state: f.state,
                port: c.port,
                flow: Flow::Done(Flow::<()>::Done(())),
            })
            &&& goes_on(i.port.sent, f.port.sent)
            &&& goes_on(f.port.sent, r.port.sent)
            &&& i.port.replies == r.port.replies
            &&& f.port.replies == r.port.replies
            &&& b.port.sent.len() <= i.port.sent.len()
        }),
{
    let b = r82xx_set_bw_run(m, set_i2c_repeater_run(p, true).port, bw);
    let i = set_if_freq_run(b.port, d.rtl_xtal, d.corr, if_freq);
    set_if_freq_resumes(b.port, d.rtl_xtal, d.corr, if_freq, Seq::empty());
    let l = lifted(d, b);
    retune_resumes::<R82xxPriv>(l.state, b.state, i.port, Seq::empty());
    let f = retune_run::<R82xxPriv>(l.state, b.state, i.port);
    set_i2c_repeater_resumes(f.port, false, Seq::empty());
}

proof fn tuned_again(d: Dongle<Chip>, m: Chip, p: Port, bw: u32)
    requires
        d.tuner == Some(m),
        in_order(m),
        passes_band(m, bw as int),
        retune_run::<R82xxPriv>(d, m, p).flow is Done,
        retune_run::<R82xxPriv>(d, m, p).state.freq == d.freq,
        on_reference(m, retune_run::<R82xxPriv>(d, m, p).port, p.sent.len() as int),
    ensures
        ({
            let f = retune_run::<R82xxPriv>(d, m, p);
            &&& f.state == (Dongle { tuner: f.state.tuner, ..d })
            &&& spares_demod(p, f)
            &&& f.state.tuner matches Some(c) && in_order(c) && passes_band(c, bw as int)
                && c.int_freq == m.int_freq && (d.freq > 0 ==> d.offs_freq <= d.freq && receives(
                c,
                (d.freq - d.offs_freq) as u32,
            ))
        }),
{
    if d.freq > 0 {
        let lo = (d.freq - d.offs_freq) as u32;
        let t = r82xx_set_freq_run(m, p, lo);
        assert(d.offs_freq <= d.freq && t.flow is Done);
        tuner_is_tuned(m, p, lo);
        assert(oscillator_for(t.state, lo) == oscillator_for(m, lo));
        band_stays(m, t.state, bw as int);
        set_freq_leaves_it(m, p, lo);
    }
}

proof fn band_change(d: Dongle<Chip>, m: Chip, p: Port, bw: u32)
    requires
        in_order(m),
        bw < 0x8000_0000,
        change_bw_run::<R82xxPriv>(d, m, p, bw).flow is Done,
        change_bw_run::<R82xxPriv>(d, m, p, bw).state.freq == d.freq,
        taken_whole(change_bw_run::<R82xxPriv>(d, m, p, bw).port, p.sent.len() as int),
        on_reference(m, change_bw_run::<R82xxPriv>(d, m, p, bw).port, p.sent.len() as int),
    ensures
        ({
            let r = change_bw_run::<R82xxPriv>(d, m, p, bw);
            let s = r.state;
            &&& r.flow == Flow::Done(Flow::Done(()))
            &&& s == (Dongle { tuner: s.tuner, ..d })
            &&& s.tuner matches Some(c) && in_order(c) && band_is_set(s, c, r.port.sent, bw)
        }),
{
    let r = change_bw_run::<R82xxPriv>(d, m, p, bw);
    let at = p.sent.len() as int;
    let o = set_i2c_repeater_run(p, true);
    let b = r82xx_set_bw_run(m, o.port, bw);
    band_begins(d, m, p, bw);
    taken_in_part(b.port, r.port, at, o.port.sent.len() as int);
    band_is_set_in_tuner(d, m, o.port, bw);
    let if_freq = b.state.int_freq;
    band_goes_on(d, m, p, bw, if_freq);
    let i = set_if_freq_run(b.port, d.rtl_xtal, d.corr, if_freq);
    let l = lifted(d, b);
    let f = retune_run::<R82xxPriv>(l.state, b.state, i.port);
    in_turn(i.port, f.port, r.port);
    taken_in_part(i.port, r.port, at, b.port.sent.len() as int);
    shift_is_set(b.port, d.rtl_xtal, d.corr, if_freq);
    reference_in_part(m, f.port, r.port, at, i.port.sent.len() as int);
    assert(on_reference(b.state, f.port, i.port.sent.len() as int));
    tuned_again(l.state, b.state, i.port, bw);
    let xtal = corrected(d.rtl_xtal, d.corr);
    if if_freq < xtal {
        shift_survives(i.port, f, false, xtal, if_freq as int);
    }
}

/// Setting the bandwidth, once it went through with every write taken whole and the centre
/// frequency kept, sets tuner and demodulator for it; a bandwidth of zero means the sample
/// rate.
pub proof fn bandwidth_is_set(d: Dongle<Chip>, m: Chip, p: Port, bw: u32)
    requires
        d.tuner == Some(m),
        in_order(m),
        bw < 0x8000_0000,
        d.rate < 0x8000_0000,
        set_tuner_bandwidth_run::<R82xxPriv>(d, p, bw).flow is Done,
        set_tuner_bandwidth_run::<R82xxPriv>(d, p, bw).state.freq == d.freq,
        taken_whole(set_tuner_bandwidth_run::<R82xxPriv>(d, p, bw).port, p.sent.len() as int),
        on_reference(
            m,
            set_tuner_bandwidth_run::<R82xxPriv>(d, p, bw).port,
            p.sent.len() as int,
        ),
    ensures
        ({
            let r = set_tuner_bandwidth_run::<R82xxPriv>(d, p, bw);
            &&& r.state == (Dongle { tuner: r.state.tuner, bw, ..d })
            &&& r.state.tuner matches Some(c) && in_order(c) && band_is_set(
                r.state,
                c,
                r.port.sent,
                if bw > 0 {
                    bw
                } else {
                    d.rate
                },
            )
        }),
{
    let wanted = if bw > 0 {
        bw
    } else {
        d.rate
    };
    band_change(d, m, p, wanted);
}

proof fn set_rate_keeps_the_shift(p: Port, ratio: u32, corr: i32, xtal: int, freq: int)
    requires
        shifts_by(p.sent, xtal, freq),
    ensures
        shifts_by(steps_run(p, rate_steps(ratio, corr)).port.sent, xtal, freq),
{
    let s = steps_run(p, rate_steps(ratio, corr));
    assert forall|addr: int| 0x19 <= addr <= 0x1b implies #[trigger] demod(s.port.sent, 1, addr)
        == demod(p.sent, 1, addr) by {
        rate_steps_spare(p, ratio, corr, 1, addr);
        spared_register_stays(p.sent, s.port.sent, Place::Demod { page: 1, addr });
    }
    shift_stays(p.sent, s.port.sent, xtal, freq);
}

/// Setting the sample rate without offset tuning, once it went through with every write
/// taken whole and the centre frequency kept, sets tuner and demodulator for the bandwidth
/// in force: the one that was set, or else the new rate.
pub proof fn rate_sets_the_bandwidth(d: Dongle<Chip>, m: Chip, p: Port, rate: u32)
    requires
        d.tuner == Some(m),
        in_order(m),
        d.offs_freq == 0,
        d.bw < 0x8000_0000,
        set_sample_rate_run::<R82xxPriv>(d, p, rate).flow is Done,
        set_sample_rate_run::<R82xxPriv>(d, p, rate).state.rate < 0x8000_0000,
        set_sample_rate_run::<R82xxPriv>(d, p, rate).state.freq == d.freq,
        taken_whole(set_sample_rate_run::<R82xxPriv>(d, p, rate).port, p.sent.len() as int),
        on_reference(
            m,
            set_sample_rate_run::<R82xxPriv>(d, p, rate).port,
            p.sent.len() as int,
        ),
    ensures
        ({
            let r = set_sample_rate_run::<R82xxPriv>(d, p, rate);
            &&& r.state == (Dongle { tuner: r.state.tuner, rate: r.state.rate, ..d })
            &&& r.state.tuner matches Some(c) && in_order(c) && band_is_set(
                r.state,
                c,
                r.port.sent,
                if d.bw > 0 {
                    d.bw
                } else {
                    r.state.rate
                },
            )
        }),
{
    let r = set_sample_rate_run::<R82xxPriv>(d, p, rate);
    let ratio = resample_ratio(d.rtl_xtal, rate);
    let d1 = Dongle { rate: rate_of_ratio(d.rtl_xtal, ratio), ..d };
    let at = p.sent.len() as int;
    let b = follow_rate_run::<R82xxPriv>(d1, p);
    let wanted = bw_in_force(d1);
    steps_resume(b.port, rate_steps(ratio, d.corr), Seq::empty());
    taken_in_part(b.port, r.port, at, at);
    reference_in_part(m, b.port, r.port, at, at);
    band_change(d1, m, p, wanted);
    let c = b.state.tuner->0;
    let xtal = corrected(d.rtl_xtal, d.corr);
    if c.int_freq < xtal {
        set_rate_keeps_the_shift(b.port, ratio, d.corr, xtal, c.int_freq as int);
    }
}

/// A new correction, once it went through, is that of the tuner's crystal; and a centre
/// frequency that was set is received with it.
pub proof fn corrected_crystal_receives(d: Dongle<Chip>, m: Chip, p: Port, ppm: i32)
    requires
        d.tuner == Some(m),
        in_order(m),
        d.corr != ppm,
        d.direct_sampling == 0,
        set_freq_correction_run::<R82xxPriv>(d, p, ppm).flow is Done,
        on_reference(
            m,
            set_freq_correction_run::<R82xxPriv>(d, p, ppm).port,
            p.sent.len() as int,
        ),
    ensures
        ({
            let s = set_freq_correction_run::<R82xxPriv>(d, p, ppm).state;
            &&& s == (Dongle { corr: ppm, tuner: s.tuner, ..d })
            &&& s.tuner matches Some(c) && c.xtal == corrected(d.tun_xtal, ppm) && (d.freq > 0
                ==> receives(c, (d.freq - d.offs_freq) as u32))
        }),
{
    let r = set_freq_correction_run::<R82xxPriv>(d, p, ppm);
    let c = set_sample_freq_correction_run(p, ppm);
    set_sample_freq_correction_resumes(p, ppm, Seq::empty());
    let m2 = Chip { xtal: corrected(d.tun_xtal, ppm) as u32, ..m };
    let d2 = Dongle { corr: ppm, tuner: Some(m2), ..d };
    if d.freq > 0 {
        let at = p.sent.len() as int;
        reference_in_part(m, r.port, r.port, at, c.port.sent.len() as int);
        assert(on_reference(m2, r.port, c.port.sent.len() as int));
        center_frequency_is_received(d2, m2, c.port, d.freq);
    }
}

/// Switching direct sampling off, once it went through on a dongle with an R82XX tuner,
/// leaves the tuner initialised anew, and the demodulator shifting by the tuner's
/// intermediate frequency.
pub proof fn tuner_is_initialised_anew(d: Dongle<Chip>, m: Chip, p: Port)
    requires
        d.tuner == Some(m),
        d.tuner_type.is_r82xx_spec(),
        d.freq == 0,
        set_direct_sampling_run::<R82xxPriv>(d, p, 0).flow is Done,
    ensures
        ({
            let r = set_direct_sampling_run::<R82xxPriv>(d, p, 0);
            let xtal = corrected(d.rtl_xtal, d.corr);
            r.state.tuner matches Some(c) && c.init_done && c.int_freq == 3_570_000 && (c.int_freq
                < xtal ==> shifts_by(r.port.sent, xtal, c.int_freq as int))
        }),
{
    tuner_is_sampled::<R82xxPriv>(d, p);
    let o = set_i2c_repeater_run(p, true);
    init_leaves_a_known_state(m, o.port);
}

/// Switching direct sampling on, once it went through, leaves an R82XX tuner that was
/// initialised with its stages off.
pub proof fn tuner_rests_in_direct_sampling(d: Dongle<Chip>, m: Chip, p: Port, on: i32)
    requires
        d.tuner == Some(m),
        m.regs.len() == NUM_REGS,
        m.init_done,
        on != 0,
        set_direct_sampling_run::<R82xxPriv>(d, p, on).flow is Done,
    ensures
        set_direct_sampling_run::<R82xxPriv>(d, p, on).state.tuner matches Some(c) && register(
            c.regs,
            0x05,
        ) == 0xa0 && register(c.regs, 0x06) == 0xb1 && register(c.regs, 0x07) == 0x3a && register(
            c.regs,
            0x08,
        ) == 0x40 && register(c.regs, 0x09) == 0xc0 && register(c.regs, 0x0a) == 0x36 && register(
            c.regs,
            0x0c,
        ) == 0x35 && register(c.regs, 0x0f) == 0x68 && register(c.regs, 0x11) == 0x03 && register(
            c.regs,
            0x17,
        ) == 0xf4 && register(c.regs, 0x19) == 0x0c,
{
    let o = set_i2c_repeater_run(p, true);
    standby_switches_the_stages_off(m, o.port);
}

} // verus!
