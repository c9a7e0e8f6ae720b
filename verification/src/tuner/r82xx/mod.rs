//! Driver for the Rafael Micro R820T and R828D tuners.

pub mod bandwidth;
pub mod constants;
pub mod effect;
pub mod front_end;
pub mod gain;
pub mod i2c;
pub mod meaning;
pub mod oscillator;
pub mod pll;
pub mod setup;
pub mod shadow;
pub mod silence;
pub mod success;

use std::sync::Arc;

use vstd::prelude::*;

use crate::usb;
use crate::error::{Fault, RtlSdrError, TunerError, TunerFault};
use crate::exchange::{
    flow_of, in_step, later, resumes, stopped, Answer, Exchange, Flow, Halt, Port, Run,
};
use crate::reg::GPO;
use crate::repeater::spared_is_untouched;
use crate::tuner::Tuner;
use crate::tuner::r82xx::bandwidth::{r82xx_set_bw_resumes, r82xx_set_bw_run};
use crate::tuner::r82xx::constants::{
    freq_range, freq_range_at, FreqRange, R82xxChip, XtalCapValue, FREQ_RANGE_STARTS, HF,
    IF_LOW_PASS_BW_TABLE, NUM_INIT_REGS, NUM_REGS, R82XX_INIT_ARRAY, UHF, VER_NUM, VHF,
};
use crate::tuner::r82xx::gain::{
    gain_mode_steps, r82xx_set_gain_mode_run, r82xx_set_gain_resumes, r82xx_set_gain_run,
};
use crate::tuner::r82xx::i2c::{
    chip_steps_resume, chip_steps_run, read_resumes, read_run, write_resumes, write_run, ChipStep,
};
use crate::tuner::r82xx::pll::{set_pll_resumes, set_pll_run};
use crate::tuner::r82xx::silence::{
    init_leaves_it, set_bw_leaves_it, set_freq_leaves_it, set_gain_leaves_it, steps_leave_it,
};
use crate::usb::{pin_resumes, pin_run, set_gpio_output_resumes, set_gpio_output_run};

verus! {

/// Configuration of an R82XX tuner.
#[derive(Clone, Debug)]
pub struct R82xxConfig {
    pub i2c_addr: u8,
    pub xtal: u32,
    pub rafael_chip: R82xxChip,
    pub max_i2c_msg_len: usize,
    pub use_predetect: bool,
}

/// State of an R82XX tuner driver.
#[derive(Clone, Debug)]
pub struct R82xxPriv {
    pub i2c_addr: u8,
    pub xtal: u32,
    pub rafael_chip: R82xxChip,
    pub max_i2c_msg_len: usize,
    pub use_predetect: bool,
    /// Shadow of the tuner's registers from 0x05 on.
    pub regs: [u8; NUM_REGS],
    pub xtal_cap_sel: XtalCapValue,
    /// Intermediate frequency in Hz.
    pub int_freq: u32,
    pub fil_cal_code: u8,
    /// Input that is switched through.
    pub input: u8,
    pub init_done: bool,
    pub bw: u32,
    pub is_blog_v4: bool,
}

/// The state of the driver as a value of the model.
#[verifier::ext_equal]
pub struct Chip {
    pub i2c_addr: u8,
    pub xtal: u32,
    pub rafael_chip: R82xxChip,
    pub max_i2c_msg_len: nat,
    pub use_predetect: bool,
    pub regs: Seq<u8>,
    pub xtal_cap_sel: XtalCapValue,
    pub int_freq: u32,
    pub fil_cal_code: u8,
    pub input: u8,
    pub init_done: bool,
    pub bw: u32,
    pub is_blog_v4: bool,
}

impl View for R82xxPriv {
    type V = Chip;

    open spec fn view(&self) -> Chip {
        Chip {
            i2c_addr: self.i2c_addr,
            xtal: self.xtal,
            rafael_chip: self.rafael_chip,
            max_i2c_msg_len: self.max_i2c_msg_len as nat,
            use_predetect: self.use_predetect,
            regs: self.regs@,
            xtal_cap_sel: self.xtal_cap_sel,
            int_freq: self.int_freq,
            fil_cal_code: self.fil_cal_code,
            input: self.input,
            init_done: self.init_done,
            bw: self.bw,
            is_blog_v4: self.is_blog_v4,
        }
    }
}

impl R82xxPriv {
    /// Creates the driver of a tuner that has not been initialised.
    pub fn new(config: &R82xxConfig) -> (r: R82xxPriv)
        ensures
            r@ == (Chip {
                i2c_addr: config.i2c_addr,
                xtal: config.xtal,
                rafael_chip: config.rafael_chip,
                max_i2c_msg_len: config.max_i2c_msg_len as nat,
                use_predetect: config.use_predetect,
                regs: Seq::new(NUM_REGS as nat, |i: int| 0u8),
                xtal_cap_sel: XtalCapValue::HighCap0p,
                int_freq: 0,
                fil_cal_code: 0,
                input: 0,
                init_done: false,
                bw: 0,
                is_blog_v4: false,
            }),
    {
        let r: R82xxPriv = R82xxPriv {
            i2c_addr: config.i2c_addr,
            xtal: config.xtal,
            rafael_chip: config.rafael_chip,
            max_i2c_msg_len: config.max_i2c_msg_len,
            use_predetect: config.use_predetect,
            regs: [0u8; NUM_REGS],
            xtal_cap_sel: XtalCapValue::HighCap0p,
            int_freq: 0,
            fil_cal_code: 0,
            input: 0,
            init_done: false,
            bw: 0,
            is_blog_v4: false,
        };
        assert(r.regs@ =~= Seq::new(NUM_REGS as nat, |i: int| 0u8));
        r
    }

    /// Says whether the tuner sits on a Blog V4 dongle.
    pub fn set_blog_v4(&mut self, is_v4: bool)
        ensures
            final(self)@ == (Chip { is_blog_v4: is_v4, ..old(self)@ }),
    {
        self.is_blog_v4 = is_v4;
    }
}

/// Whether the range at position `i` is the one for `freq_mhz`: it starts at or
/// below that frequency, and the next one above.
pub open spec fn covers(i: int, freq_mhz: int) -> bool {
    &&& 0 <= i < FREQ_RANGE_STARTS@.len()
    &&& FREQ_RANGE_STARTS@[i] <= freq_mhz
    &&& i + 1 < FREQ_RANGE_STARTS@.len() ==> freq_mhz < FREQ_RANGE_STARTS@[i + 1]
}

/// The position of the range for `freq_mhz`.
pub open spec fn freq_range_idx(freq_mhz: int) -> int {
    choose|i: int| covers(i, freq_mhz)
}

/// No frequency has two ranges.
pub proof fn covering_range_is_unique(i: int, j: int, freq_mhz: int)
    requires
        covers(i, freq_mhz),
        covers(j, freq_mhz),
    ensures
        i == j,
{
}

proof fn range_from(i: int, freq_mhz: int)
    requires
        0 <= i < FREQ_RANGE_STARTS@.len(),
        FREQ_RANGE_STARTS@[i] <= freq_mhz,
    ensures
        exists|k: int| covers(k, freq_mhz),
    decreases FREQ_RANGE_STARTS@.len() - i,
{
    if !covers(i, freq_mhz) {
        range_from(i + 1, freq_mhz);
    }
}

/// Every frequency has a range.
pub proof fn every_frequency_has_a_range(freq_mhz: int)
    requires
        freq_mhz >= 0,
    ensures
        covers(freq_range_idx(freq_mhz), freq_mhz),
{
    range_from(0, freq_mhz);
}

/// Returns the position of the range for `freq_mhz`.
pub fn find_freq_range_idx(freq_mhz: u32) -> (r: usize)
    ensures
        r == freq_range_idx(freq_mhz as int),
        covers(r as int, freq_mhz as int),
{
    let mut i: usize = 0;
    while i + 1 < 21 && FREQ_RANGE_STARTS[i + 1] <= freq_mhz
        invariant
            i < 21,
            FREQ_RANGE_STARTS@[i as int] <= freq_mhz,
        decreases 21 - i,
    {
        i += 1;
    }
    proof {
        assert(covers(i as int, freq_mhz as int));
        covering_range_is_unique(i as int, freq_range_idx(freq_mhz as int), freq_mhz as int);
    }
    i
}

/// Whether the filter at position `i` is the one for a bandwidth of `bw`: it is
/// wide enough, or the widest; and the next one is too narrow.
pub open spec fn passes(i: int, bw: int) -> bool {
    &&& 0 <= i < IF_LOW_PASS_BW_TABLE@.len()
    &&& i == 0 || IF_LOW_PASS_BW_TABLE@[i] >= bw
    &&& i + 1 < IF_LOW_PASS_BW_TABLE@.len() ==> IF_LOW_PASS_BW_TABLE@[i + 1] < bw
}

/// The position of the filter for a bandwidth of `bw`.
pub open spec fn if_lpf_idx(bw: int) -> int {
    choose|i: int| passes(i, bw)
}

/// No bandwidth has two filters.
pub proof fn passing_filter_is_unique(i: int, j: int, bw: int)
    requires
        passes(i, bw),
        passes(j, bw),
    ensures
        i == j,
{
}

proof fn filter_from(i: int, bw: int)
    requires
        0 <= i < IF_LOW_PASS_BW_TABLE@.len(),
        i == 0 || IF_LOW_PASS_BW_TABLE@[i] >= bw,
    ensures
        exists|k: int| passes(k, bw),
    decreases IF_LOW_PASS_BW_TABLE@.len() - i,
{
    if !passes(i, bw) {
        filter_from(i + 1, bw);
    }
}

/// Every bandwidth has a filter.
pub proof fn every_bandwidth_has_a_filter(bw: int)
    ensures
        passes(if_lpf_idx(bw), bw),
{
    filter_from(0, bw);
}

/// Returns the position of the filter for a bandwidth of `bw`.
pub fn find_if_lpf_idx(bw: i32) -> (r: usize)
    ensures
        r == if_lpf_idx(bw as int),
        passes(r as int, bw as int),
{
    let mut i: usize = 0;
    while i + 1 < 10 && IF_LOW_PASS_BW_TABLE[i + 1] >= bw
        invariant
            i < 10,
            i == 0 || IF_LOW_PASS_BW_TABLE@[i as int] >= bw,
        decreases 10 - i,
    {
        i += 1;
    }
    proof {
        assert(passes(i as int, bw as int));
        passing_filter_is_unique(i as int, if_lpf_idx(bw as int), bw as int);
    }
    i
}

/// Crystal load and drive that a range asks for.
pub open spec fn xtal_drive(range: FreqRange, sel: XtalCapValue) -> u8 {
    match sel {
        XtalCapValue::LowCap30p => range.xtal_cap20p | 0x08,
        XtalCapValue::LowCap20p => range.xtal_cap20p | 0x08,
        XtalCapValue::LowCap10p => range.xtal_cap10p | 0x08,
        XtalCapValue::HighCap0p => range.xtal_cap0p,
        XtalCapValue::LowCap0p => range.xtal_cap0p | 0x08,
    }
}

/// The writes that set the RF mux and the tracking filter.
pub open spec fn mux_steps(range: FreqRange, sel: XtalCapValue) -> Seq<ChipStep> {
    seq![
        // Open drain
        ChipStep::Mask { reg: 0x17, val: range.open_d, mask: 0x08 },
        // RF mux, polyphase mux
        ChipStep::Mask { reg: 0x1a, val: range.rf_mux_ploy, mask: 0xc3 },
        // Tracking filter band
        ChipStep::Put { reg: 0x1b, val: range.tf_c },
        // Crystal load and drive
        ChipStep::Mask { reg: 0x10, val: xtal_drive(range, sel), mask: 0x0b },
        ChipStep::Mask { reg: 0x08, val: 0x00, mask: 0x3f },
        ChipStep::Mask { reg: 0x09, val: 0x00, mask: 0x3f },
    ]
}

/// Setting the RF mux and the tracking filter for `freq` Hz.
pub open spec fn set_mux_run(c: Chip, p: Port, freq: u32) -> Run<Chip, ()> {
    let range = freq_range_at(freq_range_idx(freq as int / 1_000_000));
    chip_steps_run(c, p, mux_steps(range, c.xtal_cap_sel))
}

/// The detector thresholds, which come first, before the input is chosen.
pub open spec fn sysfreq_opening(use_predetect: bool) -> Seq<ChipStep> {
    let thresholds = seq![
        // LNA and mixer take-over points
        ChipStep::Mask { reg: 0x1d, val: 0xe5, mask: 0xc7 },
        ChipStep::Mask { reg: 0x1c, val: 0x24, mask: 0xf8 },
        ChipStep::Put { reg: 0x0d, val: 0x53 },
        ChipStep::Put { reg: 0x0e, val: 0x75 },
    ];
    if use_predetect {
        seq![ChipStep::Mask { reg: 0x06, val: 0x40, mask: 0x40 }] + thresholds
    } else {
        thresholds
    }
}

/// The currents and the discharge of the digital path.
pub open spec fn sysfreq_closing() -> Seq<ChipStep> {
    seq![
        // Air and cable inputs
        ChipStep::Mask { reg: 0x05, val: 0x00, mask: 0x60 },
        ChipStep::Mask { reg: 0x06, val: 0x00, mask: 0x08 },
        // Charge pump, divider buffer, filter currents
        ChipStep::Mask { reg: 0x11, val: 0x38, mask: 0x38 },
        ChipStep::Mask { reg: 0x17, val: 0x30, mask: 0x30 },
        ChipStep::Mask { reg: 0x0a, val: 0x40, mask: 0x60 },
        // LNA take-over lowest, no predetection, AGC clock 250 Hz
        ChipStep::Mask { reg: 0x1d, val: 0x00, mask: 0x38 },
        ChipStep::Mask { reg: 0x1c, val: 0x00, mask: 0x04 },
        ChipStep::Mask { reg: 0x06, val: 0x00, mask: 0x40 },
        ChipStep::Mask { reg: 0x1a, val: 0x30, mask: 0x30 },
        // LNA take-over 3, mixer discharge, AGC clock 60 Hz
        ChipStep::Mask { reg: 0x1d, val: 0x18, mask: 0x38 },
        ChipStep::Mask { reg: 0x1c, val: 0x24, mask: 0x04 },
        ChipStep::Mask { reg: 0x1e, val: 14, mask: 0x1f },
        ChipStep::Mask { reg: 0x1a, val: 0x20, mask: 0x30 },
    ]
}

/// Setting the system parameters.
pub open spec fn sysfreq_sel_run(c: Chip, p: Port) -> Run<Chip, ()> {
    let a = chip_steps_run(c, p, sysfreq_opening(c.use_predetect));
    match a.flow {
        Flow::Done(_) => chip_steps_run(Chip { input: 0, ..a.state }, a.port, sysfreq_closing()),
        _ => a,
    }
}

/// The writes that open the setting of the TV standard.
pub open spec fn tv_opening() -> Seq<ChipStep> {
    seq![
        // Init flag and crystal check result
        ChipStep::Mask { reg: 0x0c, val: 0x00, mask: 0x0f },
        // Version
        ChipStep::Mask { reg: 0x13, val: VER_NUM, mask: 0x3f },
        // Loop-through gain test
        ChipStep::Mask { reg: 0x1d, val: 0x00, mask: 0x38 },
    ]
}

/// The writes that open a filter calibration.
pub open spec fn calibration_opening() -> Seq<ChipStep> {
    seq![
        // Filter capacitor
        ChipStep::Mask { reg: 0x0b, val: 0x6b, mask: 0x60 },
        // Calibration clock on
        ChipStep::Mask { reg: 0x0f, val: 0x04, mask: 0x04 },
        // Crystal load 0 pF for the PLL
        ChipStep::Mask { reg: 0x10, val: 0x00, mask: 0x03 },
    ]
}

/// The writes that trigger a filter calibration and stop its clock.
pub open spec fn calibration_trigger() -> Seq<ChipStep> {
    seq![
        ChipStep::Mask { reg: 0x0b, val: 0x10, mask: 0x10 },
        ChipStep::Mask { reg: 0x0b, val: 0x00, mask: 0x10 },
        ChipStep::Mask { reg: 0x0f, val: 0x00, mask: 0x04 },
    ]
}

/// The writes that close the setting of the TV standard.
pub open spec fn tv_closing(fil_cal_code: u8) -> Seq<ChipStep> {
    seq![
        // Filter quality and calibration code
        ChipStep::Mask { reg: 0x0a, val: 0x10 | fil_cal_code, mask: 0x1f },
        // Bandwidth and high-pass corner
        ChipStep::Mask { reg: 0x0b, val: 0x6b, mask: 0xef },
        // Image rejection
        ChipStep::Mask { reg: 0x07, val: 0x00, mask: 0x80 },
        // Filter gain
        ChipStep::Mask { reg: 0x06, val: 0x10, mask: 0x30 },
        // Channel filter extension
        ChipStep::Mask { reg: 0x1e, val: 0x60, mask: 0x60 },
        // Loop through, its attenuation
        ChipStep::Mask { reg: 0x05, val: 0x01, mask: 0x80 },
        ChipStep::Mask { reg: 0x1f, val: 0x00, mask: 0x80 },
        // Widest filter extension off
        ChipStep::Mask { reg: 0x0f, val: 0x00, mask: 0x80 },
        // Polyphase filter current
        ChipStep::Mask { reg: 0x19, val: 0x60, mask: 0x60 },
    ]
}

/// The frequency in Hz at which the filter is calibrated.
pub const FILT_CAL_LO: u32 = 56_000_000;

/// A failure of the PLL during the filter calibration.
pub open spec fn calibration_fault(source: Fault) -> Fault {
    Fault::Tuner(TunerFault::Context { context: "filter calibration"@, source: Box::new(source) })
}

/// Tuning the PLL for the filter calibration.
pub open spec fn calibration_pll_run(c: Chip, p: Port) -> Run<Chip, ()> {
    let l = set_pll_run(c, p, FILT_CAL_LO);
    match l.flow {
        Flow::Failed(e) => Run {
            state: l.state,
            port: l.port,
            flow: Flow::Failed(calibration_fault(e)),
        },
        _ => l,
    }
}

/// Triggering a filter calibration and reading its code.
pub open spec fn calibration_result_run(c: Chip, p: Port) -> Run<Chip, ()> {
    let t = chip_steps_run(c, p, calibration_trigger());
    match t.flow {
        Flow::Done(_) => {
            let f = read_run(t.state, t.port, 0x00, 5);
            match f.flow {
                Flow::Done(data) => Run {
                    state: Chip { fil_cal_code: data[4] & 0x0f, ..t.state },
                    port: f.port,
                    flow: Flow::Done(()),
                },
                _ => stopped(t.state, f),
            }
        },
        _ => t,
    }
}

/// One filter calibration.
pub open spec fn calibrate_run(c: Chip, p: Port) -> Run<Chip, ()> {
    let a = chip_steps_run(c, p, calibration_opening());
    match a.flow {
        Flow::Done(_) => {
            let l = calibration_pll_run(a.state, a.port);
            match l.flow {
                Flow::Done(_) => calibration_result_run(l.state, l.port),
                _ => l,
            }
        },
        _ => a,
    }
}

/// Whether a calibration code is one to keep.
pub open spec fn usable(code: u8) -> bool {
    code != 0 && code != 0x0f
}

/// The filter calibration, repeated once where the first code is none to keep.
pub open spec fn calibrations_run(c: Chip, p: Port) -> Run<Chip, ()> {
    let a = calibrate_run(c, p);
    match a.flow {
        Flow::Done(_) => if usable(a.state.fil_cal_code) {
            a
        } else {
            calibrate_run(a.state, a.port)
        },
        _ => a,
    }
}

/// The shadow with the power-on values in the registers that have one.
pub open spec fn with_init_values(regs: Seq<u8>) -> Seq<u8> {
    Seq::new(
        regs.len(),
        |k: int|
            if k < NUM_INIT_REGS {
                R82XX_INIT_ARRAY@[k]
            } else {
                regs[k]
            },
    )
}

/// Closing the setting of the TV standard.
pub open spec fn tv_closing_run(c: Chip, p: Port) -> Run<Chip, ()> {
    let kept = Chip {
        fil_cal_code: if c.fil_cal_code == 0x0f {
            0
        } else {
            c.fil_cal_code
        },
        ..c
    };
    let z = chip_steps_run(kept, p, tv_closing(kept.fil_cal_code));
    match z.flow {
        Flow::Done(_) => Run { state: Chip { bw: 0, ..z.state }, port: z.port, flow: z.flow },
        _ => z,
    }
}

/// Setting the TV standard, with the calibration of the filter.
pub open spec fn set_tv_standard_run(c: Chip, p: Port) -> Run<Chip, ()> {
    let start = Chip { regs: with_init_values(c.regs), ..c };
    let a = chip_steps_run(start, p, tv_opening());
    match a.flow {
        Flow::Done(_) => {
            let k = calibrations_run(Chip { int_freq: 3_570_000, ..a.state }, a.port);
            match k.flow {
                Flow::Done(_) => tv_closing_run(k.state, k.port),
                _ => k,
            }
        },
        _ => a,
    }
}

/// The writes that put the tuner into standby.
pub open spec fn standby_steps() -> Seq<ChipStep> {
    seq![
        ChipStep::Put { reg: 0x06, val: 0xb1 },
        ChipStep::Put { reg: 0x05, val: 0xa0 },
        ChipStep::Put { reg: 0x07, val: 0x3a },
        ChipStep::Put { reg: 0x08, val: 0x40 },
        ChipStep::Put { reg: 0x09, val: 0xc0 },
        ChipStep::Put { reg: 0x0a, val: 0x36 },
        ChipStep::Put { reg: 0x0c, val: 0x35 },
        ChipStep::Put { reg: 0x0f, val: 0x68 },
        ChipStep::Put { reg: 0x11, val: 0x03 },
        ChipStep::Put { reg: 0x17, val: 0xf4 },
        ChipStep::Put { reg: 0x19, val: 0x0c },
    ]
}

/// Putting the tuner into standby; nothing is to be done where it was never
/// initialised.
pub open spec fn standby_run(c: Chip, p: Port) -> Run<Chip, ()> {
    if c.init_done {
        chip_steps_run(c, p, standby_steps())
    } else {
        Run { state: c, port: p, flow: Flow::Done(()) }
    }
}

impl R82xxPriv {
    /// Sets the RF mux and the tracking filter for `freq` Hz.
    pub fn set_mux(&mut self, port: &mut Exchange, freq: u32) -> (r: Result<(), Halt>)
        ensures
            (Run { state: final(self)@, port: final(port)@, flow: flow_of(r) }) == set_mux_run(
                old(self)@,
                old(port)@,
                freq,
            ),
    {
        let range: FreqRange = freq_range(find_freq_range_idx(freq / 1_000_000));
        let val: u8 = match self.xtal_cap_sel {
            XtalCapValue::LowCap30p => range.xtal_cap20p | 0x08,
            XtalCapValue::LowCap20p => range.xtal_cap20p | 0x08,
            XtalCapValue::LowCap10p => range.xtal_cap10p | 0x08,
            XtalCapValue::HighCap0p => range.xtal_cap0p,
            XtalCapValue::LowCap0p => range.xtal_cap0p | 0x08,
        };
        let steps: [ChipStep; 6] = [
            ChipStep::Mask { reg: 0x17, val: range.open_d, mask: 0x08 },
            ChipStep::Mask { reg: 0x1a, val: range.rf_mux_ploy, mask: 0xc3 },
            ChipStep::Put { reg: 0x1b, val: range.tf_c },
            ChipStep::Mask { reg: 0x10, val, mask: 0x0b },
            ChipStep::Mask { reg: 0x08, val: 0x00, mask: 0x3f },
            ChipStep::Mask { reg: 0x09, val: 0x00, mask: 0x3f },
        ];
        assert(steps@ =~= mux_steps(range, self.xtal_cap_sel));
        self.apply(port, &steps)
    }

    /// Sets the system parameters: detector thresholds, currents, inputs.
    pub fn sysfreq_sel(&mut self, port: &mut Exchange) -> (r: Result<(), Halt>)
        ensures
            (Run { state: final(self)@, port: final(port)@, flow: flow_of(r) }) == sysfreq_sel_run(
                old(self)@,
                old(port)@,
            ),
    {
        let mut opening: Vec<ChipStep> = Vec::new();
        if self.use_predetect {
            opening.push(ChipStep::Mask { reg: 0x06, val: 0x40, mask: 0x40 });
        }
        opening.push(ChipStep::Mask { reg: 0x1d, val: 0xe5, mask: 0xc7 });
        opening.push(ChipStep::Mask { reg: 0x1c, val: 0x24, mask: 0xf8 });
        opening.push(ChipStep::Put { reg: 0x0d, val: 0x53 });
        opening.push(ChipStep::Put { reg: 0x0e, val: 0x75 });
        assert(opening@ =~= sysfreq_opening(self.use_predetect));
        self.apply(port, opening.as_slice())?;
        self.input = 0;
        let closing: [ChipStep; 13] = [
            ChipStep::Mask { reg: 0x05, val: 0x00, mask: 0x60 },
            ChipStep::Mask { reg: 0x06, val: 0x00, mask: 0x08 },
            ChipStep::Mask { reg: 0x11, val: 0x38, mask: 0x38 },
            ChipStep::Mask { reg: 0x17, val: 0x30, mask: 0x30 },
            ChipStep::Mask { reg: 0x0a, val: 0x40, mask: 0x60 },
            ChipStep::Mask { reg: 0x1d, val: 0x00, mask: 0x38 },
            ChipStep::Mask { reg: 0x1c, val: 0x00, mask: 0x04 },
            ChipStep::Mask { reg: 0x06, val: 0x00, mask: 0x40 },
            ChipStep::Mask { reg: 0x1a, val: 0x30, mask: 0x30 },
            ChipStep::Mask { reg: 0x1d, val: 0x18, mask: 0x38 },
            ChipStep::Mask { reg: 0x1c, val: 0x24, mask: 0x04 },
            ChipStep::Mask { reg: 0x1e, val: 14, mask: 0x1f },
            ChipStep::Mask { reg: 0x1a, val: 0x20, mask: 0x30 },
        ];
        assert(closing@ =~= sysfreq_closing());
        self.apply(port, &closing)
    }

    fn calibrate(&mut self, port: &mut Exchange) -> (r: Result<(), Halt>)
        ensures
            (Run { state: final(self)@, port: final(port)@, flow: flow_of(r) }) == calibrate_run(
                old(self)@,
                old(port)@,
            ),
    {
        let opening: [ChipStep; 3] = [
            ChipStep::Mask { reg: 0x0b, val: 0x6b, mask: 0x60 },
            ChipStep::Mask { reg: 0x0f, val: 0x04, mask: 0x04 },
            ChipStep::Mask { reg: 0x10, val: 0x00, mask: 0x03 },
        ];
        assert(opening@ =~= calibration_opening());
        self.apply(port, &opening)?;
        match self.set_pll(port, FILT_CAL_LO) {
            Ok(_) => {},
            Err(Halt::Waiting) => {
                return Err(Halt::Waiting);
            },
            Err(Halt::Failed(e)) => {
                return Err(
                    Halt::Failed(
                        RtlSdrError::Tuner(
                            TunerError::Context {
                                context: "filter calibration",
                                source: Arc::new(e),
                            },
                        ),
                    ),
                );
            },
        }
        let trigger: [ChipStep; 3] = [
            ChipStep::Mask { reg: 0x0b, val: 0x10, mask: 0x10 },
            ChipStep::Mask { reg: 0x0b, val: 0x00, mask: 0x10 },
            ChipStep::Mask { reg: 0x0f, val: 0x00, mask: 0x04 },
        ];
        assert(trigger@ =~= calibration_trigger());
        self.apply(port, &trigger)?;
        let data: Vec<u8> = self.read(port, 0x00, 5)?;
        self.fil_cal_code = data[4] & 0x0f;
        Ok(())
    }

    fn calibrate_twice_at_most(&mut self, port: &mut Exchange) -> (r: Result<(), Halt>)
        ensures
            (Run { state: final(self)@, port: final(port)@, flow: flow_of(r) })
                == calibrations_run(old(self)@, old(port)@),
    {
        self.calibrate(port)?;
        if self.fil_cal_code == 0 || self.fil_cal_code == 0x0f {
            self.calibrate(port)?;
        }
        Ok(())
    }

    fn close_tv_standard(&mut self, port: &mut Exchange) -> (r: Result<(), Halt>)
        ensures
            (Run { state: final(self)@, port: final(port)@, flow: flow_of(r) }) == tv_closing_run(
                old(self)@,
                old(port)@,
            ),
    {
        if self.fil_cal_code == 0x0f {
            self.fil_cal_code = 0;
        }
        let closing: [ChipStep; 9] = [
            ChipStep::Mask { reg: 0x0a, val: 0x10 | self.fil_cal_code, mask: 0x1f },
            ChipStep::Mask { reg: 0x0b, val: 0x6b, mask: 0xef },
            ChipStep::Mask { reg: 0x07, val: 0x00, mask: 0x80 },
            ChipStep::Mask { reg: 0x06, val: 0x10, mask: 0x30 },
            ChipStep::Mask { reg: 0x1e, val: 0x60, mask: 0x60 },
            ChipStep::Mask { reg: 0x05, val: 0x01, mask: 0x80 },
            ChipStep::Mask { reg: 0x1f, val: 0x00, mask: 0x80 },
            ChipStep::Mask { reg: 0x0f, val: 0x00, mask: 0x80 },
            ChipStep::Mask { reg: 0x19, val: 0x60, mask: 0x60 },
        ];
        assert(closing@ =~= tv_closing(self.fil_cal_code));
        self.apply(port, &closing)?;
        self.bw = 0;
        Ok(())
    }

    fn load_init_values(&mut self)
        ensures
            final(self)@ == (Chip { regs: with_init_values(old(self)@.regs), ..old(self)@ }),
    {
        let mut i: usize = 0;
        while i < NUM_INIT_REGS
            invariant
                i <= NUM_INIT_REGS,
                self@ == (Chip { regs: self.regs@, ..old(self)@ }),
                forall|k: int|
                    0 <= k < NUM_REGS ==> #[trigger] self.regs@[k] == (if k < i {
                        R82XX_INIT_ARRAY@[k]
                    } else {
                        old(self)@.regs[k]
                    }),
            decreases NUM_INIT_REGS - i,
        {
            self.regs[i] = R82XX_INIT_ARRAY[i];
            i += 1;
        }
        assert(self.regs@ =~= with_init_values(old(self)@.regs));
    }

    /// Sets the TV standard and calibrates the filter.
    pub fn set_tv_standard(&mut self, port: &mut Exchange) -> (r: Result<(), Halt>)
        ensures
            (Run { state: final(self)@, port: final(port)@, flow: flow_of(r) })
                == set_tv_standard_run(old(self)@, old(port)@),
    {
        self.load_init_values();
        let opening: [ChipStep; 3] = [
            ChipStep::Mask { reg: 0x0c, val: 0x00, mask: 0x0f },
            ChipStep::Mask { reg: 0x13, val: VER_NUM, mask: 0x3f },
            ChipStep::Mask { reg: 0x1d, val: 0x00, mask: 0x38 },
        ];
        assert(opening@ =~= tv_opening());
        self.apply(port, &opening)?;
        self.int_freq = 3_570_000;
        self.calibrate_twice_at_most(port)?;
        self.close_tv_standard(port)
    }

    /// Puts the tuner into standby. A tuner that was never initialised is left
    /// alone.
    pub fn standby(&mut self, port: &mut Exchange) -> (r: Result<(), Halt>)
        ensures
            (Run { state: final(self)@, port: final(port)@, flow: flow_of(r) }) == standby_run(
                old(self)@,
                old(port)@,
            ),
    {
        if !self.init_done {
            return Ok(());
        }
        let steps: [ChipStep; 11] = [
            ChipStep::Put { reg: 0x06, val: 0xb1 },
            ChipStep::Put { reg: 0x05, val: 0xa0 },
            ChipStep::Put { reg: 0x07, val: 0x3a },
            ChipStep::Put { reg: 0x08, val: 0x40 },
            ChipStep::Put { reg: 0x09, val: 0xc0 },
            ChipStep::Put { reg: 0x0a, val: 0x36 },
            ChipStep::Put { reg: 0x0c, val: 0x35 },
            ChipStep::Put { reg: 0x0f, val: 0x68 },
            ChipStep::Put { reg: 0x11, val: 0x03 },
            ChipStep::Put { reg: 0x17, val: 0xf4 },
            ChipStep::Put { reg: 0x19, val: 0x0c },
        ];
        assert(steps@ =~= standby_steps());
        self.apply(port, &steps)
    }
}

/// Initialising the tuner.
pub open spec fn r82xx_init_run(c: Chip, p: Port) -> Run<Chip, ()> {
    let start = Chip {
        xtal_cap_sel: XtalCapValue::HighCap0p,
        regs: Seq::new(NUM_REGS as nat, |k: int| 0u8),
        ..c
    };
    let a = write_run(start, p, 0x05, R82XX_INIT_ARRAY@);
    match a.flow {
        Flow::Done(_) => {
            let t = set_tv_standard_run(a.state, a.port);
            match t.flow {
                Flow::Done(_) => {
                    let s = sysfreq_sel_run(t.state, t.port);
                    match s.flow {
                        Flow::Done(_) => Run {
                            state: Chip { init_done: true, ..s.state },
                            port: s.port,
                            flow: s.flow,
                        },
                        _ => s,
                    }
                },
                _ => t,
            }
        },
        _ => a,
    }
}

/// `a + b`, or the largest number where that is larger.
pub open spec fn capped_sum(a: u32, b: u32) -> u32 {
    if a + b > u32::MAX {
        u32::MAX
    } else {
        (a + b) as u32
    }
}

/// The frequency of the local oscillator for a wanted frequency of `freq`. Below
/// 28.8 MHz the Blog V4 dongle sees it 28.8 MHz higher.
pub open spec fn lo_freq(c: Chip, freq: u32) -> u32 {
    let shifted = if c.is_blog_v4 && freq < 28_800_000 {
        capped_sum(freq, 28_800_000)
    } else {
        freq
    };
    capped_sum(shifted, c.int_freq)
}

/// The input band of the Blog V4 dongle for `freq`.
pub open spec fn blog_v4_band(freq: u32) -> u8 {
    if freq <= 28_800_000 {
        HF
    } else if freq < 250_000_000 {
        VHF
    } else {
        UHF
    }
}

/// Whether `freq` lies where the Blog V4 dongle has no notch filter on.
pub open spec fn blog_v4_notch_off(freq: u32) -> bool {
    ||| freq <= 2_200_000
    ||| 85_000_000 <= freq <= 112_000_000
    ||| 172_000_000 <= freq <= 242_000_000
}

/// The writes that choose between the cable and the air input for a band.
pub open spec fn band_inputs(band: u8) -> Seq<ChipStep> {
    seq![
        ChipStep::Mask {
            reg: 0x05,
            val: if band == VHF {
                0x40
            } else {
                0x00
            },
            mask: 0x40,
        },
        ChipStep::Mask {
            reg: 0x05,
            val: if band == UHF {
                0x00
            } else {
                0x20
            },
            mask: 0x20,
        },
    ]
}

/// Switching the upconverter of the Blog V4 dongle, which hangs on pin 5.
pub open spec fn upconverter_run(p: Port, on: bool) -> Run<(), ()> {
    let g = set_gpio_output_run(p, 5);
    match g.flow {
        Flow::Done(_) => pin_run(g.port, GPO, 5, !on),
        _ => g,
    }
}

/// Switching the Blog V4 dongle to the input band `band`.
pub open spec fn switch_band_run(c: Chip, p: Port, band: u8) -> Run<Chip, ()> {
    let cable_2_in: u8 = if band == HF {
        0x08
    } else {
        0x00
    };
    let a = chip_steps_run(
        Chip { input: band, ..c },
        p,
        seq![ChipStep::Mask { reg: 0x06, val: cable_2_in, mask: 0x08 }],
    );
    match a.flow {
        Flow::Done(_) => {
            let g = upconverter_run(a.port, band == HF);
            match g.flow {
                Flow::Done(_) => chip_steps_run(a.state, g.port, band_inputs(band)),
                _ => stopped(a.state, g),
            }
        },
        _ => a,
    }
}

/// Notch filter and input band of the Blog V4 dongle for `freq`.
pub open spec fn blog_v4_run(c: Chip, p: Port, freq: u32) -> Run<Chip, ()> {
    let open_d: u8 = if blog_v4_notch_off(freq) {
        0x00
    } else {
        0x08
    };
    let a = chip_steps_run(c, p, seq![ChipStep::Mask { reg: 0x17, val: open_d, mask: 0x08 }]);
    match a.flow {
        Flow::Done(_) => if blog_v4_band(freq) != a.state.input {
            switch_band_run(a.state, a.port, blog_v4_band(freq))
        } else {
            a
        },
        _ => a,
    }
}

/// The input of an R828D for `freq`: air above 345 MHz, cable else.
pub open spec fn r828d_input(freq: u32) -> u8 {
    if freq > 345_000_000 {
        0x00
    } else {
        0x60
    }
}

/// Choosing the input for `freq`, once the PLL has locked.
pub open spec fn choose_input_run(c: Chip, p: Port, freq: u32) -> Run<Chip, ()> {
    if c.is_blog_v4 {
        blog_v4_run(c, p, freq)
    } else if c.rafael_chip == R82xxChip::R828D && r828d_input(freq) != c.input {
        chip_steps_run(
            Chip { input: r828d_input(freq), ..c },
            p,
            seq![ChipStep::Mask { reg: 0x05, val: r828d_input(freq), mask: 0x60 }],
        )
    } else {
        Run { state: c, port: p, flow: Flow::Done(()) }
    }
}

/// Setting the frequency: RF mux, PLL, input.
pub open spec fn r82xx_set_freq_run(c: Chip, p: Port, freq: u32) -> Run<Chip, ()> {
    let lo = lo_freq(c, freq);
    let a = set_mux_run(c, p, lo);
    match a.flow {
        Flow::Done(_) => {
            let l = set_pll_run(a.state, a.port, lo);
            match l.flow {
                Flow::Done(_) => choose_input_run(l.state, l.port, freq),
                _ => l,
            }
        },
        _ => a,
    }
}

impl R82xxPriv {
    fn switch_band(&mut self, port: &mut Exchange, band: u8) -> (r: Result<(), Halt>)
        ensures
            (Run { state: final(self)@, port: final(port)@, flow: flow_of(r) }) == switch_band_run(
                old(self)@,
                old(port)@,
                band,
            ),
    {
        self.input = band;
        let cable_2_in: u8 = if band == HF {
            0x08
        } else {
            0x00
        };
        let cable: [ChipStep; 1] = [ChipStep::Mask { reg: 0x06, val: cable_2_in, mask: 0x08 }];
        assert(cable@ =~= seq![ChipStep::Mask { reg: 0x06, val: cable_2_in, mask: 0x08 }]);
        self.apply(port, &cable)?;
        usb::set_gpio_output(port, 5)?;
        usb::set_gpio_bit(port, 5, cable_2_in == 0)?;
        let cable_1_in: u8 = if band == VHF {
            0x40
        } else {
            0x00
        };
        let air_in: u8 = if band == UHF {
            0x00
        } else {
            0x20
        };
        let inputs: [ChipStep; 2] = [
            ChipStep::Mask { reg: 0x05, val: cable_1_in, mask: 0x40 },
            ChipStep::Mask { reg: 0x05, val: air_in, mask: 0x20 },
        ];
        assert(inputs@ =~= band_inputs(band));
        self.apply(port, &inputs)
    }

    fn choose_input(&mut self, port: &mut Exchange, freq: u32) -> (r: Result<(), Halt>)
        ensures
            (Run { state: final(self)@, port: final(port)@, flow: flow_of(r) })
                == choose_input_run(old(self)@, old(port)@, freq),
    {
        if self.is_blog_v4 {
            let open_d: u8 = if freq <= 2_200_000 || (freq >= 85_000_000 && freq <= 112_000_000) || (
            freq >= 172_000_000 && freq <= 242_000_000) {
                0x00
            } else {
                0x08
            };
            let notch: [ChipStep; 1] = [ChipStep::Mask { reg: 0x17, val: open_d, mask: 0x08 }];
            assert(notch@ =~= seq![ChipStep::Mask { reg: 0x17, val: open_d, mask: 0x08 }]);
            self.apply(port, &notch)?;
            let band: u8 = if freq <= 28_800_000 {
                HF
            } else if freq < 250_000_000 {
                VHF
            } else {
                UHF
            };
            if band != self.input {
                self.switch_band(port, band)?;
            }
        } else if self.rafael_chip == R82xxChip::R828D {
            let air_cable1_in: u8 = if freq > 345_000_000 {
                0x00
            } else {
                0x60
            };
            if air_cable1_in != self.input {
                self.input = air_cable1_in;
                let air: [ChipStep; 1] = [
                    ChipStep::Mask { reg: 0x05, val: air_cable1_in, mask: 0x60 },
                ];
                assert(air@ =~= seq![
                    ChipStep::Mask { reg: 0x05, val: air_cable1_in, mask: 0x60 },
                ]);
                self.apply(port, &air)?;
            }
        }
        Ok(())
    }
}

impl Tuner for R82xxPriv {
    type Model = Chip;

    open spec fn model(&self) -> Chip {
        self@
    }

    open spec fn init_run(m: Chip, p: Port) -> Run<Chip, ()> {
        r82xx_init_run(m, p)
    }

    open spec fn exit_run(m: Chip, p: Port) -> Run<Chip, ()> {
        standby_run(m, p)
    }

    open spec fn set_freq_run(m: Chip, p: Port, freq: u32) -> Run<Chip, ()> {
        r82xx_set_freq_run(m, p, freq)
    }

    open spec fn set_bw_run(m: Chip, p: Port, bw: u32, sample_rate: u32) -> Run<Chip, u32> {
        r82xx_set_bw_run(m, p, bw)
    }

    open spec fn set_gain_run(m: Chip, p: Port, gain: i32) -> Run<Chip, ()> {
        r82xx_set_gain_run(m, p, gain)
    }

    open spec fn with_xtal(m: Chip, xtal: u32) -> Chip {
        Chip { xtal, ..m }
    }

    open spec fn set_gain_mode_run(m: Chip, p: Port, manual: bool) -> Run<Chip, ()> {
        r82xx_set_gain_mode_run(m, p, manual)
    }

    open spec fn set_if_gain_run(m: Chip, p: Port, stage: i32, gain: i32) -> Run<Chip, ()> {
        Run { state: m, port: p, flow: Flow::Done(()) }
    }

    fn init(&mut self, port: &mut Exchange) -> (r: Result<(), Halt>) {
        self.xtal_cap_sel = XtalCapValue::HighCap0p;
        self.regs = [0u8; NUM_REGS];
        proof {
            assert(self.regs@ =~= Seq::new(NUM_REGS as nat, |k: int| 0u8));
        }
        let values: [u8; 27] = R82XX_INIT_ARRAY;
        self.write(port, 0x05, &values)?;
        self.set_tv_standard(port)?;
        self.sysfreq_sel(port)?;
        self.init_done = true;
        Ok(())
    }

    fn exit(&mut self, port: &mut Exchange) -> (r: Result<(), Halt>) {
        self.standby(port)
    }

    fn set_freq(&mut self, port: &mut Exchange, freq: u32) -> (r: Result<(), Halt>) {
        let upconvert_freq: u32 = if self.is_blog_v4 && freq < 28_800_000 {
            freq.saturating_add(28_800_000)
        } else {
            freq
        };
        let lo: u32 = upconvert_freq.saturating_add(self.int_freq);
        self.set_mux(port, lo)?;
        self.set_pll(port, lo)?;
        self.choose_input(port, freq)
    }

    fn set_bw(&mut self, port: &mut Exchange, bw: u32, sample_rate: u32) -> (r: Result<u32, Halt>) {
        self.program_bw(port, bw)
    }

    fn set_gain(&mut self, port: &mut Exchange, gain: i32) -> (r: Result<(), Halt>) {
        self.program_gain(port, gain)
    }

    fn set_xtal(&mut self, xtal: u32) {
        self.xtal = xtal;
    }

    fn set_gain_mode(&mut self, port: &mut Exchange, manual: bool) -> (r: Result<(), Halt>) {
        self.program_gain_mode(port, manual)
    }

    fn set_if_gain(&mut self, port: &mut Exchange, stage: i32, gain: i32) -> (r: Result<
        (),
        Halt,
    >) {
        Ok(())
    }

    proof fn init_resumes(m: Chip, p: Port, more: Seq<Answer>) {
        r82xx_init_resumes(m, p, more);
    }

    proof fn exit_resumes(m: Chip, p: Port, more: Seq<Answer>) {
        chip_steps_resume(m, p, standby_steps(), more);
    }

    proof fn set_freq_resumes(m: Chip, p: Port, freq: u32, more: Seq<Answer>) {
        r82xx_set_freq_resumes(m, p, freq, more);
    }

    proof fn set_bw_resumes(m: Chip, p: Port, bw: u32, sample_rate: u32, more: Seq<Answer>) {
        r82xx_set_bw_resumes(m, p, bw, more);
    }

    proof fn set_gain_resumes(m: Chip, p: Port, gain: i32, more: Seq<Answer>) {
        r82xx_set_gain_resumes(m, p, gain, more);
    }

    proof fn set_gain_mode_resumes(m: Chip, p: Port, manual: bool, more: Seq<Answer>) {
        chip_steps_resume(m, p, gain_mode_steps(manual), more);
    }

    proof fn set_if_gain_resumes(m: Chip, p: Port, stage: i32, gain: i32, more: Seq<Answer>) {
    }

    proof fn leaves_the_repeater(
        m: Chip,
        p: Port,
        freq: u32,
        bw: u32,
        sample_rate: u32,
        gain: i32,
        manual: bool,
        stage: i32,
    ) {
        R82xxPriv::leaves_the_demodulator(m, p, freq, bw, sample_rate, gain, manual, stage);
        spared_is_untouched(p, r82xx_init_run(m, p));
        spared_is_untouched(p, standby_run(m, p));
        spared_is_untouched(p, r82xx_set_freq_run(m, p, freq));
        spared_is_untouched(p, r82xx_set_bw_run(m, p, bw));
        spared_is_untouched(p, r82xx_set_gain_run(m, p, gain));
        spared_is_untouched(p, r82xx_set_gain_mode_run(m, p, manual));
    }

    proof fn leaves_the_demodulator(
        m: Chip,
        p: Port,
        freq: u32,
        bw: u32,
        sample_rate: u32,
        gain: i32,
        manual: bool,
        stage: i32,
    ) {
        init_leaves_it(m, p);
        steps_leave_it(m, p, standby_steps());
        set_freq_leaves_it(m, p, freq);
        set_bw_leaves_it(m, p, bw);
        set_gain_leaves_it(m, p, gain);
        steps_leave_it(m, p, gain_mode_steps(manual));
    }
}

/// Setting the system parameters agrees with itself when answers come later.
pub proof fn sysfreq_sel_resumes(c: Chip, p: Port, more: Seq<Answer>)
    ensures
        resumes(p, sysfreq_sel_run(c, p), sysfreq_sel_run(c, later(p, more)), more),
{
    let opening = sysfreq_opening(c.use_predetect);
    chip_steps_resume(c, p, opening, more);
    let early = chip_steps_run(c, p, opening);
    let late = chip_steps_run(c, later(p, more), opening);
    in_step(early.port, late.port, more);
    chip_steps_resume(Chip { input: 0, ..early.state }, early.port, sysfreq_closing(), more);
    chip_steps_resume(Chip { input: 0, ..late.state }, late.port, sysfreq_closing(), Seq::empty());
}

/// Triggering a calibration and reading its code agrees with itself when answers
/// come later.
pub proof fn calibration_result_resumes(c: Chip, p: Port, more: Seq<Answer>)
    ensures
        resumes(p, calibration_result_run(c, p), calibration_result_run(c, later(p, more)), more),
{
    chip_steps_resume(c, p, calibration_trigger(), more);
    let early = chip_steps_run(c, p, calibration_trigger());
    let late = chip_steps_run(c, later(p, more), calibration_trigger());
    in_step(early.port, late.port, more);
    read_resumes(early.state, early.port, 0x00, 5, more);
    read_resumes(late.state, late.port, 0x00, 5, Seq::empty());
}

/// One filter calibration agrees with itself when answers come later.
pub proof fn calibrate_resumes(c: Chip, p: Port, more: Seq<Answer>)
    ensures
        resumes(p, calibrate_run(c, p), calibrate_run(c, later(p, more)), more),
{
    chip_steps_resume(c, p, calibration_opening(), more);
    let early = chip_steps_run(c, p, calibration_opening());
    let late = chip_steps_run(c, later(p, more), calibration_opening());
    in_step(early.port, late.port, more);
    set_pll_resumes(early.state, early.port, FILT_CAL_LO, more);
    set_pll_resumes(late.state, late.port, FILT_CAL_LO, Seq::empty());
    let early2 = calibration_pll_run(early.state, early.port);
    let late2 = calibration_pll_run(late.state, late.port);
    in_step(early2.port, late2.port, more);
    calibration_result_resumes(early2.state, early2.port, more);
    calibration_result_resumes(late2.state, late2.port, Seq::empty());
}

/// The filter calibration agrees with itself when answers come later.
pub proof fn calibrations_resume(c: Chip, p: Port, more: Seq<Answer>)
    ensures
        resumes(p, calibrations_run(c, p), calibrations_run(c, later(p, more)), more),
{
    calibrate_resumes(c, p, more);
    let early = calibrate_run(c, p);
    let late = calibrate_run(c, later(p, more));
    in_step(early.port, late.port, more);
    calibrate_resumes(early.state, early.port, more);
    calibrate_resumes(late.state, late.port, Seq::empty());
}

/// Closing the TV standard agrees with itself when answers come later.
pub proof fn tv_closing_resumes(c: Chip, p: Port, more: Seq<Answer>)
    ensures
        resumes(p, tv_closing_run(c, p), tv_closing_run(c, later(p, more)), more),
{
    let kept = Chip {
        fil_cal_code: if c.fil_cal_code == 0x0f {
            0
        } else {
            c.fil_cal_code
        },
        ..c
    };
    chip_steps_resume(kept, p, tv_closing(kept.fil_cal_code), more);
}

/// Setting the TV standard agrees with itself when answers come later.
pub proof fn set_tv_standard_resumes(c: Chip, p: Port, more: Seq<Answer>)
    ensures
        resumes(p, set_tv_standard_run(c, p), set_tv_standard_run(c, later(p, more)), more),
{
    let start = Chip { regs: with_init_values(c.regs), ..c };
    chip_steps_resume(start, p, tv_opening(), more);
    let early = chip_steps_run(start, p, tv_opening());
    let late = chip_steps_run(start, later(p, more), tv_opening());
    in_step(early.port, late.port, more);
    let early_chip = Chip { int_freq: 3_570_000, ..early.state };
    let late_chip = Chip { int_freq: 3_570_000, ..late.state };
    calibrations_resume(early_chip, early.port, more);
    calibrations_resume(late_chip, late.port, Seq::empty());
    let early2 = calibrations_run(early_chip, early.port);
    let late2 = calibrations_run(late_chip, late.port);
    in_step(early2.port, late2.port, more);
    tv_closing_resumes(early2.state, early2.port, more);
    tv_closing_resumes(late2.state, late2.port, Seq::empty());
}

/// Initialising the tuner agrees with itself when answers come later.
pub proof fn r82xx_init_resumes(c: Chip, p: Port, more: Seq<Answer>)
    ensures
        resumes(p, r82xx_init_run(c, p), r82xx_init_run(c, later(p, more)), more),
{
    let start = Chip {
        xtal_cap_sel: XtalCapValue::HighCap0p,
        regs: Seq::new(NUM_REGS as nat, |k: int| 0u8),
        ..c
    };
    write_resumes(start, p, 0x05, R82XX_INIT_ARRAY@, more);
    let early = write_run(start, p, 0x05, R82XX_INIT_ARRAY@);
    let late = write_run(start, later(p, more), 0x05, R82XX_INIT_ARRAY@);
    in_step(early.port, late.port, more);
    set_tv_standard_resumes(early.state, early.port, more);
    set_tv_standard_resumes(late.state, late.port, Seq::empty());
    let early2 = set_tv_standard_run(early.state, early.port);
    let late2 = set_tv_standard_run(late.state, late.port);
    in_step(early2.port, late2.port, more);
    sysfreq_sel_resumes(early2.state, early2.port, more);
    sysfreq_sel_resumes(late2.state, late2.port, Seq::empty());
}

/// Switching the upconverter agrees with itself when answers come later.
pub proof fn upconverter_resumes(p: Port, on: bool, more: Seq<Answer>)
    ensures
        resumes(p, upconverter_run(p, on), upconverter_run(later(p, more), on), more),
{
    set_gpio_output_resumes(p, 5, more);
    let early = set_gpio_output_run(p, 5);
    let late = set_gpio_output_run(later(p, more), 5);
    in_step(early.port, late.port, more);
    pin_resumes(early.port, GPO, 5, !on, more);
    pin_resumes(late.port, GPO, 5, !on, Seq::empty());
}

/// Switching the input band agrees with itself when answers come later.
pub proof fn switch_band_resumes(c: Chip, p: Port, band: u8, more: Seq<Answer>)
    ensures
        resumes(p, switch_band_run(c, p, band), switch_band_run(c, later(p, more), band), more),
{
    let cable_2_in: u8 = if band == HF {
        0x08
    } else {
        0x00
    };
    let cable = seq![ChipStep::Mask { reg: 0x06, val: cable_2_in, mask: 0x08 }];
    let start = Chip { input: band, ..c };
    chip_steps_resume(start, p, cable, more);
    let early = chip_steps_run(start, p, cable);
    let late = chip_steps_run(start, later(p, more), cable);
    in_step(early.port, late.port, more);
    upconverter_resumes(early.port, band == HF, more);
    upconverter_resumes(late.port, band == HF, Seq::empty());
    let early2 = upconverter_run(early.port, band == HF);
    let late2 = upconverter_run(late.port, band == HF);
    in_step(early2.port, late2.port, more);
    chip_steps_resume(early.state, early2.port, band_inputs(band), more);
    chip_steps_resume(late.state, late2.port, band_inputs(band), Seq::empty());
}

/// Notch filter and input band agree with themselves when answers come later.
pub proof fn blog_v4_resumes(c: Chip, p: Port, freq: u32, more: Seq<Answer>)
    ensures
        resumes(p, blog_v4_run(c, p, freq), blog_v4_run(c, later(p, more), freq), more),
{
    let open_d: u8 = if blog_v4_notch_off(freq) {
        0x00
    } else {
        0x08
    };
    let notch = seq![ChipStep::Mask { reg: 0x17, val: open_d, mask: 0x08 }];
    chip_steps_resume(c, p, notch, more);
    let early = chip_steps_run(c, p, notch);
    let late = chip_steps_run(c, later(p, more), notch);
    in_step(early.port, late.port, more);
    switch_band_resumes(early.state, early.port, blog_v4_band(freq), more);
    switch_band_resumes(late.state, late.port, blog_v4_band(freq), Seq::empty());
}

/// Choosing the input agrees with itself when answers come later.
pub proof fn choose_input_resumes(c: Chip, p: Port, freq: u32, more: Seq<Answer>)
    ensures
        resumes(p, choose_input_run(c, p, freq), choose_input_run(c, later(p, more), freq), more),
{
    blog_v4_resumes(c, p, freq, more);
    chip_steps_resume(
        Chip { input: r828d_input(freq), ..c },
        p,
        seq![ChipStep::Mask { reg: 0x05, val: r828d_input(freq), mask: 0x60 }],
        more,
    );
}

/// Setting the RF mux agrees with itself when answers come later.
pub proof fn set_mux_resumes(c: Chip, p: Port, freq: u32, more: Seq<Answer>)
    ensures
        resumes(p, set_mux_run(c, p, freq), set_mux_run(c, later(p, more), freq), more),
{
    let range = freq_range_at(freq_range_idx(freq as int / 1_000_000));
    chip_steps_resume(c, p, mux_steps(range, c.xtal_cap_sel), more);
}

/// Setting the frequency agrees with itself when answers come later.
pub proof fn r82xx_set_freq_resumes(c: Chip, p: Port, freq: u32, more: Seq<Answer>)
    ensures
        resumes(
            p,
            r82xx_set_freq_run(c, p, freq),
            r82xx_set_freq_run(c, later(p, more), freq),
            more,
        ),
{
    let lo = lo_freq(c, freq);
    set_mux_resumes(c, p, lo, more);
    let early = set_mux_run(c, p, lo);
    let late = set_mux_run(c, later(p, more), lo);
    in_step(early.port, late.port, more);
    set_pll_resumes(early.state, early.port, lo, more);
    set_pll_resumes(late.state, late.port, lo, Seq::empty());
    let early2 = set_pll_run(early.state, early.port, lo);
    let late2 = set_pll_run(late.state, late.port, lo);
    in_step(early2.port, late2.port, more);
    choose_input_resumes(early2.state, early2.port, freq, more);
    choose_input_resumes(late2.state, late2.port, freq, Seq::empty());
}

} // verus!
