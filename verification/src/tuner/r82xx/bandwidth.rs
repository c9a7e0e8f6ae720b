//! Bandwidth of the R82XX tuners: IF filters, and the intermediate frequency that
//! goes with them.

use vstd::prelude::*;

use crate::exchange::{flow_of, later, resumes, Answer, Exchange, Flow, Halt, Port, Run};
use crate::tuner::r82xx::constants::{FILT_HP_BW1, FILT_HP_BW2, IF_LOW_PASS_BW_TABLE};
use crate::tuner::r82xx::i2c::{chip_steps_resume, chip_steps_run, ChipStep};
use crate::tuner::r82xx::{
    every_bandwidth_has_a_filter, find_if_lpf_idx, if_lpf_idx, Chip, R82xxPriv,
};

verus! {

/// Filter settings for a bandwidth.
#[derive(Clone, Copy, Debug, PartialEq, Eq, Structural)]
pub struct BandPlan {
    pub reg_0a: u8,
    pub reg_0b: u8,
    /// Intermediate frequency in Hz.
    pub int_freq: u32,
}

/// Whether the second high-pass filter takes a part of the bandwidth.
pub open spec fn second_high_pass(bw: int) -> bool {
    bw > IF_LOW_PASS_BW_TABLE@[0] + FILT_HP_BW1
}

/// The bandwidth that the second high-pass filter leaves to the others.
pub open spec fn after_second(bw: int) -> int {
    if second_high_pass(bw) {
        bw - FILT_HP_BW2
    } else {
        bw
    }
}

/// Whether the first high-pass filter takes a part of the bandwidth.
pub open spec fn first_high_pass(bw: int) -> bool {
    after_second(bw) > IF_LOW_PASS_BW_TABLE@[0]
}

/// The bandwidth that is left to the low-pass filter.
pub open spec fn low_pass_share(bw: int) -> int {
    if first_high_pass(bw) {
        after_second(bw) - FILT_HP_BW1
    } else {
        after_second(bw)
    }
}

/// What the high-pass filters add to the bandwidth.
pub open spec fn high_pass_share(bw: int) -> int {
    bw - low_pass_share(bw)
}

/// The bandwidth that the filters really pass.
pub open spec fn real_bandwidth(bw: int) -> int {
    high_pass_share(bw) + IF_LOW_PASS_BW_TABLE@[if_lpf_idx(low_pass_share(bw))]
}

/// The filter settings for a bandwidth of `bw`.
pub open spec fn band_plan(bw: int) -> BandPlan {
    if bw > 7_000_000 {
        BandPlan { reg_0a: 0x10, reg_0b: 0x0b, int_freq: 4_570_000 }
    } else if bw > 6_000_000 {
        BandPlan { reg_0a: 0x10, reg_0b: 0x2a, int_freq: 4_570_000 }
    } else if bw > IF_LOW_PASS_BW_TABLE@[0] + FILT_HP_BW1 + FILT_HP_BW2 {
        BandPlan { reg_0a: 0x10, reg_0b: 0x6b, int_freq: 3_570_000 }
    } else {
        let no_second: u8 = if second_high_pass(bw) {
            0x00
        } else {
            0x20
        };
        let no_first: u8 = if first_high_pass(bw) {
            0x00
        } else {
            0x40
        };
        let low_pass = (15 - if_lpf_idx(low_pass_share(bw))) as u8;
        BandPlan {
            reg_0a: 0x00,
            reg_0b: 0x80 | no_second | no_first | low_pass,
            int_freq: (2_300_000 + high_pass_share(bw) - real_bandwidth(bw) / 2) as u32,
        }
    }
}

/// Returns the filter settings for a bandwidth of `bw`.
pub fn plan_band(bw: i32) -> (r: BandPlan)
    ensures
        r == band_plan(bw as int),
{
    if bw > 7_000_000 {
        return BandPlan { reg_0a: 0x10, reg_0b: 0x0b, int_freq: 4_570_000 };
    }
    if bw > 6_000_000 {
        return BandPlan { reg_0a: 0x10, reg_0b: 0x2a, int_freq: 4_570_000 };
    }
    if bw > IF_LOW_PASS_BW_TABLE[0] + FILT_HP_BW1 + FILT_HP_BW2 {
        return BandPlan { reg_0a: 0x10, reg_0b: 0x6b, int_freq: 3_570_000 };
    }
    let mut rest: i32 = bw;
    let mut int_freq: i32 = 2_300_000;
    let mut real_bw: i32 = 0;
    let mut no_second: u8 = 0x00;
    let mut no_first: u8 = 0x00;
    if rest > IF_LOW_PASS_BW_TABLE[0] + FILT_HP_BW1 {
        rest -= FILT_HP_BW2;
        int_freq += FILT_HP_BW2;
        real_bw += FILT_HP_BW2;
    } else {
        no_second = 0x20;
    }
    if rest > IF_LOW_PASS_BW_TABLE[0] {
        rest -= FILT_HP_BW1;
        int_freq += FILT_HP_BW1;
        real_bw += FILT_HP_BW1;
    } else {
        no_first = 0x40;
    }
    let i: usize = find_if_lpf_idx(rest);
    let low_pass: u8 = (15 - i) as u8;
    real_bw += IF_LOW_PASS_BW_TABLE[i];
    int_freq -= real_bw / 2;
    BandPlan {
        reg_0a: 0x00,
        reg_0b: 0x80 | no_second | no_first | low_pass,
        int_freq: int_freq as u32,
    }
}

/// Up to 2.43 MHz the filters pass at least the bandwidth that was asked for.
pub proof fn filters_pass_the_bandwidth(bw: int)
    requires
        bw <= IF_LOW_PASS_BW_TABLE@[0] + FILT_HP_BW1 + FILT_HP_BW2,
    ensures
        real_bandwidth(bw) >= bw,
{
    every_bandwidth_has_a_filter(low_pass_share(bw));
}

/// The writes that set the filters.
pub open spec fn band_steps(plan: BandPlan) -> Seq<ChipStep> {
    seq![
        ChipStep::Mask { reg: 0x0a, val: plan.reg_0a, mask: 0x10 },
        ChipStep::Mask { reg: 0x0b, val: plan.reg_0b, mask: 0xef },
    ]
}

/// Setting the bandwidth. Bandwidths of 2^31 Hz and more count as negative.
pub open spec fn r82xx_set_bw_run(c: Chip, p: Port, bw: u32) -> Run<Chip, u32> {
    let plan = band_plan((bw as i32) as int);
    let a = chip_steps_run(Chip { int_freq: plan.int_freq, ..c }, p, band_steps(plan));
    Run {
        state: a.state,
        port: a.port,
        flow: match a.flow {
            Flow::Done(_) => Flow::Done(plan.int_freq),
            Flow::Failed(e) => Flow::Failed(e),
            Flow::Waiting => Flow::Waiting,
        },
    }
}

impl R82xxPriv {
    pub(crate) fn program_bw(&mut self, port: &mut Exchange, bw: u32) -> (r: Result<u32, Halt>)
        ensures
            (Run { state: final(self)@, port: final(port)@, flow: flow_of(r) })
                == r82xx_set_bw_run(old(self)@, old(port)@, bw),
    {
        let plan: BandPlan = plan_band(bw as i32);
        self.int_freq = plan.int_freq;
        let steps: [ChipStep; 2] = [
            ChipStep::Mask { reg: 0x0a, val: plan.reg_0a, mask: 0x10 },
            ChipStep::Mask { reg: 0x0b, val: plan.reg_0b, mask: 0xef },
        ];
        assert(steps@ =~= band_steps(plan));
        self.apply(port, &steps)?;
        Ok(plan.int_freq)
    }
}

/// Setting the bandwidth agrees with itself when answers come later.
pub proof fn r82xx_set_bw_resumes(c: Chip, p: Port, bw: u32, more: Seq<Answer>)
    ensures
        resumes(p, r82xx_set_bw_run(c, p, bw), r82xx_set_bw_run(c, later(p, more), bw), more),
{
    let plan = band_plan((bw as i32) as int);
    chip_steps_resume(Chip { int_freq: plan.int_freq, ..c }, p, band_steps(plan), more);
}

} // verus!
