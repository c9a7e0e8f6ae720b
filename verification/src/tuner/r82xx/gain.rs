//! Gain of the R82XX tuners. LNA and mixer are raised in turn, step by step, until
//! the wanted gain is reached.

use vstd::prelude::*;

use crate::exchange::{
    flow_of, in_step, later, resumes, stopped, Answer, Exchange, Flow, Halt, Port, Run,
};
use crate::tuner::r82xx::constants::{R82XX_LNA_GAIN_STEPS, R82XX_MIXER_GAIN_STEPS};
use crate::tuner::r82xx::i2c::{
    chip_steps_resume, chip_steps_run, read_resumes, read_run, ChipStep,
};
use crate::tuner::r82xx::{Chip, R82xxPriv};

verus! {

/// Number of steps up to the highest gain. The last mixer step would lower the
/// gain and is never taken.
pub const GAIN_RUNGS: usize = 29;

/// The gain in tenths of dB after `k` steps: a step of the LNA, then one of the
/// mixer, and so on.
pub open spec fn rung(k: int) -> int
    decreases k,
{
    if k <= 0 {
        0
    } else if k % 2 == 1 {
        rung(k - 1) + R82XX_LNA_GAIN_STEPS@[(k + 1) / 2]
    } else {
        rung(k - 1) + R82XX_MIXER_GAIN_STEPS@[k / 2]
    }
}

/// Whether `k` steps are the fewest that reach `gain`, or all where none do.
pub open spec fn reaches(k: int, gain: int) -> bool {
    &&& 0 <= k <= GAIN_RUNGS
    &&& k == GAIN_RUNGS || rung(k) >= gain
    &&& forall|j: int| 0 <= j < k ==> #[trigger] rung(j) < gain
}

/// The number of steps for `gain`.
pub open spec fn gain_rung(gain: int) -> int {
    choose|k: int| reaches(k, gain)
}

/// No gain has two numbers of steps.
pub proof fn reaching_rung_is_unique(j: int, k: int, gain: int)
    requires
        reaches(j, gain),
        reaches(k, gain),
    ensures
        j == k,
{
    if j < k {
        assert(rung(j) < gain);
    }
    if k < j {
        assert(rung(k) < gain);
    }
}

/// Every step raises the gain, by at most 4 dB.
pub proof fn rungs_rise(j: int, k: int)
    requires
        0 <= j < k <= GAIN_RUNGS,
    ensures
        rung(j) < rung(k) <= rung(j) + 40 * (k - j),
    decreases k,
{
    if j + 1 < k {
        rungs_rise(j, k - 1);
    }
}

proof fn rung_from(k: int, gain: int)
    requires
        0 <= k <= GAIN_RUNGS,
        forall|j: int| 0 <= j < k ==> #[trigger] rung(j) < gain,
    ensures
        exists|n: int| reaches(n, gain),
    decreases GAIN_RUNGS - k,
{
    if !reaches(k, gain) {
        rung_from(k + 1, gain);
    }
}

/// Every gain has a number of steps.
pub proof fn every_gain_has_a_rung(gain: int)
    ensures
        reaches(gain_rung(gain), gain),
{
    rung_from(0, gain);
}

/// Asking for more gain never takes fewer steps.
pub proof fn more_gain_takes_no_fewer_steps(low: int, high: int)
    requires
        low <= high,
    ensures
        gain_rung(low) <= gain_rung(high),
{
    every_gain_has_a_rung(low);
    every_gain_has_a_rung(high);
    if gain_rung(high) < gain_rung(low) {
        assert(rung(gain_rung(high)) < low);
    }
}

/// A gain that can be reached is reached, and exceeded by less than 4 dB.
pub proof fn gain_is_exceeded_by_less_than_4_db(gain: int)
    requires
        0 < gain <= rung(GAIN_RUNGS as int),
    ensures
        gain <= rung(gain_rung(gain)) < gain + 40,
{
    every_gain_has_a_rung(gain);
    let k = gain_rung(gain);
    assert(rung(0) == 0);
    if k > 0 {
        assert(rung(k - 1) < gain);
        rungs_rise(k - 1, k);
    }
}

/// Returns the number of steps for `gain`.
pub fn find_gain_rung(gain: i32) -> (r: u8)
    ensures
        r == gain_rung(gain as int),
        reaches(r as int, gain as int),
{
    let mut k: usize = 0;
    let mut total_gain: i32 = 0;
    while k < GAIN_RUNGS && total_gain < gain
        invariant
            k <= GAIN_RUNGS,
            total_gain == rung(k as int),
            0 <= total_gain <= 40 * k,
            forall|j: int| 0 <= j < k ==> #[trigger] rung(j) < gain,
        decreases GAIN_RUNGS - k,
    {
        k += 1;
        let step: i32 = if k % 2 == 1 {
            R82XX_LNA_GAIN_STEPS[(k + 1) / 2]
        } else {
            R82XX_MIXER_GAIN_STEPS[k / 2]
        };
        proof {
            rungs_rise(k - 1, k as int);
        }
        total_gain += step;
    }
    proof {
        assert(reaches(k as int, gain as int));
        reaching_rung_is_unique(k as int, gain_rung(gain as int), gain as int);
    }
    k as u8
}

/// The writes that switch the automatic gain of LNA and mixer off.
pub open spec fn auto_off_steps() -> Seq<ChipStep> {
    seq![
        ChipStep::Mask { reg: 0x05, val: 0x10, mask: 0x10 },
        ChipStep::Mask { reg: 0x07, val: 0x00, mask: 0x10 },
    ]
}

/// The writes that fix the VGA at 16.3 dB and set LNA and mixer to `k` steps.
pub open spec fn gain_steps(k: int) -> Seq<ChipStep> {
    seq![
        ChipStep::Mask { reg: 0x0c, val: 0x08, mask: 0x9f },
        ChipStep::Mask { reg: 0x05, val: ((k + 1) / 2) as u8, mask: 0x0f },
        ChipStep::Mask { reg: 0x07, val: (k / 2) as u8, mask: 0x0f },
    ]
}

/// Setting the gain.
pub open spec fn r82xx_set_gain_run(c: Chip, p: Port, gain: i32) -> Run<Chip, ()> {
    let a = chip_steps_run(c, p, auto_off_steps());
    match a.flow {
        Flow::Done(_) => {
            let f = read_run(a.state, a.port, 0x00, 4);
            match f.flow {
                Flow::Done(_) => {
                    chip_steps_run(a.state, f.port, gain_steps(gain_rung(gain as int)))
                },
                _ => stopped(a.state, f),
            }
        },
        _ => a,
    }
}

/// The writes that switch between manual and automatic gain.
pub open spec fn gain_mode_steps(manual: bool) -> Seq<ChipStep> {
    if manual {
        seq![
            // LNA and mixer automatic off, VGA 16.3 dB
            ChipStep::Mask { reg: 0x05, val: 0x10, mask: 0x10 },
            ChipStep::Mask { reg: 0x07, val: 0x00, mask: 0x10 },
            ChipStep::Mask { reg: 0x0c, val: 0x08, mask: 0x9f },
        ]
    } else {
        seq![
            // LNA and mixer automatic on, VGA 26.5 dB
            ChipStep::Mask { reg: 0x05, val: 0x00, mask: 0x10 },
            ChipStep::Mask { reg: 0x07, val: 0x10, mask: 0x10 },
            ChipStep::Mask { reg: 0x0c, val: 0x0b, mask: 0x9f },
        ]
    }
}

/// Switching between manual and automatic gain.
pub open spec fn r82xx_set_gain_mode_run(c: Chip, p: Port, manual: bool) -> Run<Chip, ()> {
    chip_steps_run(c, p, gain_mode_steps(manual))
}

impl R82xxPriv {
    pub(crate) fn program_gain(&mut self, port: &mut Exchange, gain: i32) -> (r: Result<(), Halt>)
        ensures
            (Run { state: final(self)@, port: final(port)@, flow: flow_of(r) })
                == r82xx_set_gain_run(old(self)@, old(port)@, gain),
    {
        let auto_off: [ChipStep; 2] = [
            ChipStep::Mask { reg: 0x05, val: 0x10, mask: 0x10 },
            ChipStep::Mask { reg: 0x07, val: 0x00, mask: 0x10 },
        ];
        assert(auto_off@ =~= auto_off_steps());
        self.apply(port, &auto_off)?;
        self.read(port, 0x00, 4)?;
        let k: u8 = find_gain_rung(gain);
        let steps: [ChipStep; 3] = [
            ChipStep::Mask { reg: 0x0c, val: 0x08, mask: 0x9f },
            ChipStep::Mask { reg: 0x05, val: (k + 1) / 2, mask: 0x0f },
            ChipStep::Mask { reg: 0x07, val: k / 2, mask: 0x0f },
        ];
        assert(steps@ =~= gain_steps(k as int));
        self.apply(port, &steps)
    }

    pub(crate) fn program_gain_mode(&mut self, port: &mut Exchange, manual: bool) -> (r: Result<
        (),
        Halt,
    >)
        ensures
            (Run { state: final(self)@, port: final(port)@, flow: flow_of(r) })
                == r82xx_set_gain_mode_run(old(self)@, old(port)@, manual),
    {
        let steps: [ChipStep; 3] = if manual {
            [
                ChipStep::Mask { reg: 0x05, val: 0x10, mask: 0x10 },
                ChipStep::Mask { reg: 0x07, val: 0x00, mask: 0x10 },
                ChipStep::Mask { reg: 0x0c, val: 0x08, mask: 0x9f },
            ]
        } else {
            [
                ChipStep::Mask { reg: 0x05, val: 0x00, mask: 0x10 },
                ChipStep::Mask { reg: 0x07, val: 0x10, mask: 0x10 },
                ChipStep::Mask { reg: 0x0c, val: 0x0b, mask: 0x9f },
            ]
        };
        assert(steps@ =~= gain_mode_steps(manual));
        self.apply(port, &steps)
    }
}

/// Setting the gain agrees with itself when answers come later.
pub proof fn r82xx_set_gain_resumes(c: Chip, p: Port, gain: i32, more: Seq<Answer>)
    ensures
        resumes(p, r82xx_set_gain_run(c, p, gain), r82xx_set_gain_run(c, later(p, more), gain), more),
{
    chip_steps_resume(c, p, auto_off_steps(), more);
    let early = chip_steps_run(c, p, auto_off_steps());
    let late = chip_steps_run(c, later(p, more), auto_off_steps());
    in_step(early.port, late.port, more);
    read_resumes(early.state, early.port, 0x00, 4, more);
    read_resumes(late.state, late.port, 0x00, 4, Seq::empty());
    let early2 = read_run(early.state, early.port, 0x00, 4);
    let late2 = read_run(late.state, late.port, 0x00, 4);
    in_step(early2.port, late2.port, more);
    let steps = gain_steps(gain_rung(gain as int));
    chip_steps_resume(early.state, early2.port, steps, more);
    chip_steps_resume(late.state, late2.port, steps, Seq::empty());
}

} // verus!
