//! Direct sampling, test mode, bias tee, buffer reset.

use vstd::prelude::*;

use crate::constants::R82XX_IF_FREQ;
use crate::device::frequency::{lifted, set_center_freq_resumes, set_center_freq_run};
use crate::device::gain::{agc_mode, mode_run};
use crate::device::{set_if_freq_resumes, set_if_freq_run, Dongle, RtlSdrDevice};
use crate::exchange::{
    flow_of, in_step, later, resumes, stopped, Answer, Exchange, Flow, Halt, Port, Run,
};
use crate::reg::{Block, GPO, USB_EPA_CTL};
use crate::tuner::Tuner;
use crate::usb;
use crate::usb::{
    pin_resumes, pin_run, set_gpio_output_resumes, set_gpio_output_run, set_i2c_repeater_resumes,
    set_i2c_repeater_run, steps_resume, steps_run, RegStep,
};

verus! {

/// Switching the tuner on or off, with the repeater on meanwhile. A tuner that
/// fails leaves the repeater on.
pub open spec fn power_tuner_run<T: Tuner>(d: Dongle<T::Model>, p: Port, on: bool) -> Run<
    Dongle<T::Model>,
    (),
> {
    match d.tuner {
        Some(m) => {
            let o = set_i2c_repeater_run(p, true);
            match o.flow {
                Flow::Done(_) => {
                    let t = lifted(
                        d,
                        if on {
                            T::init_run(m, o.port)
                        } else {
                            T::exit_run(m, o.port)
                        },
                    );
                    match t.flow {
                        Flow::Done(_) => {
                            let c = set_i2c_repeater_run(t.port, false);
                            Run { state: t.state, port: c.port, flow: c.flow }
                        },
                        _ => t,
                    }
                },
                _ => stopped(d, o),
            }
        },
        None => Run { state: d, port: p, flow: Flow::Done(()) },
    }
}

/// The writes that switch the demodulator to direct sampling.
pub open spec fn direct_steps(on: i32) -> Seq<RegStep> {
    seq![
        // No Zero-IF mode
        RegStep::Demod { page: 1, addr: 0xb1, val: 0x1a, len: 1 },
        // No spectrum inversion
        RegStep::Demod { page: 1, addr: 0x15, val: 0x00, len: 1 },
        // In-phase ADC input alone
        RegStep::Demod { page: 0, addr: 0x08, val: 0x4d, len: 1 },
        // I and Q ADC swapped for the second input
        RegStep::Demod {
            page: 0,
            addr: 0x06,
            val: if on > 1 {
                0x90
            } else {
                0x80
            },
            len: 1,
        },
    ]
}

/// The writes that switch the demodulator back to the tuner.
pub open spec fn tuner_input_steps(r82xx: bool) -> Seq<RegStep> {
    if r82xx {
        seq![
            // Spectrum inversion
            RegStep::Demod { page: 1, addr: 0x15, val: 0x01, len: 1 },
            // Default ADC_I/ADC_Q datapath
            RegStep::Demod { page: 0, addr: 0x06, val: 0x80, len: 1 },
        ]
    } else {
        seq![
            // In-phase and quadrature ADC input
            RegStep::Demod { page: 0, addr: 0x08, val: 0xcd, len: 1 },
            // Zero-IF mode
            RegStep::Demod { page: 1, addr: 0xb1, val: 0x1b, len: 1 },
            // Default ADC_I/ADC_Q datapath
            RegStep::Demod { page: 0, addr: 0x06, val: 0x80, len: 1 },
        ]
    }
}

/// The intermediate frequency of the tuner.
pub open spec fn tuner_if(r82xx: bool) -> u32 {
    if r82xx {
        R82XX_IF_FREQ
    } else {
        0
    }
}

/// Switching the demodulator between the tuner and direct sampling.
pub open spec fn switch_input_run<M>(d: Dongle<M>, p: Port, on: i32) -> Run<(), ()> {
    if on != 0 {
        steps_run(p, direct_steps(on))
    } else {
        let r82xx = d.tuner_type.is_r82xx_spec();
        let i = set_if_freq_run(p, d.rtl_xtal, d.corr, tuner_if(r82xx));
        match i.flow {
            Flow::Done(_) => steps_run(i.port, tuner_input_steps(r82xx)),
            _ => i,
        }
    }
}

/// Switching direct sampling.
pub open spec fn set_direct_sampling_run<T: Tuner>(d: Dongle<T::Model>, p: Port, on: i32) -> Run<
    Dongle<T::Model>,
    (),
> {
    let t = power_tuner_run::<T>(d, p, on == 0);
    match t.flow {
        Flow::Done(_) => {
            let s = switch_input_run(d, t.port, on);
            match s.flow {
                Flow::Done(_) => {
                    let d1 = Dongle { direct_sampling: on, ..t.state };
                    if d.freq > 0 {
                        set_center_freq_run::<T>(d1, s.port, d.freq)
                    } else {
                        Run { state: d1, port: s.port, flow: Flow::Done(()) }
                    }
                },
                _ => stopped(t.state, s),
            }
        },
        _ => t,
    }
}

/// The mode with the test counter on or off.
pub open spec fn test_mode(on: bool) -> u16 {
    if on {
        0x03
    } else {
        0x05
    }
}

/// Switching the bias tee on the pin `gpio`.
pub open spec fn set_bias_tee_run(p: Port, gpio: u8, on: bool) -> Run<(), ()> {
    let g = set_gpio_output_run(p, gpio);
    match g.flow {
        Flow::Done(_) => pin_run(g.port, GPO, gpio, on),
        _ => g,
    }
}

/// The writes that reset the buffer of the sample endpoint.
pub open spec fn reset_buffer_steps() -> Seq<RegStep> {
    seq![
        RegStep::Block { block: Block::Usb, addr: USB_EPA_CTL, val: 0x1002, len: 2 },
        RegStep::Block { block: Block::Usb, addr: USB_EPA_CTL, val: 0x0000, len: 2 },
    ]
}

impl<T: Tuner> RtlSdrDevice<T> {
    fn power_tuner(&mut self, port: &mut Exchange, on: bool) -> (r: Result<(), Halt>)
        ensures
            (Run { state: final(self)@, port: final(port)@, flow: flow_of(r) })
                == power_tuner_run::<T>(old(self)@, old(port)@, on),
    {
        if let Some(tuner) = &mut self.tuner {
            usb::set_i2c_repeater(port, true)?;
            if on {
                tuner.init(port)?;
            } else {
                tuner.exit(port)?;
            }
            usb::set_i2c_repeater(port, false)?;
        }
        Ok(())
    }

    fn switch_input(&self, port: &mut Exchange, on: i32) -> (r: Result<(), Halt>)
        ensures
            (Run { state: (), port: final(port)@, flow: flow_of(r) }) == switch_input_run(
                self@,
                old(port)@,
                on,
            ),
    {
        if on != 0 {
            let input: u16 = if on > 1 {
                0x90
            } else {
                0x80
            };
            let steps: [RegStep; 4] = [
                RegStep::Demod { page: 1, addr: 0xb1, val: 0x1a, len: 1 },
                RegStep::Demod { page: 1, addr: 0x15, val: 0x00, len: 1 },
                RegStep::Demod { page: 0, addr: 0x08, val: 0x4d, len: 1 },
                RegStep::Demod { page: 0, addr: 0x06, val: input, len: 1 },
            ];
            assert(steps@ =~= direct_steps(on));
            usb::apply(port, &steps)
        } else if self.tuner_type.is_r82xx() {
            self.set_if_freq(port, R82XX_IF_FREQ)?;
            let steps: [RegStep; 2] = [
                RegStep::Demod { page: 1, addr: 0x15, val: 0x01, len: 1 },
                RegStep::Demod { page: 0, addr: 0x06, val: 0x80, len: 1 },
            ];
            assert(steps@ =~= tuner_input_steps(true));
            usb::apply(port, &steps)
        } else {
            self.set_if_freq(port, 0)?;
            let steps: [RegStep; 3] = [
                RegStep::Demod { page: 0, addr: 0x08, val: 0xcd, len: 1 },
                RegStep::Demod { page: 1, addr: 0xb1, val: 0x1b, len: 1 },
                RegStep::Demod { page: 0, addr: 0x06, val: 0x80, len: 1 },
            ];
            assert(steps@ =~= tuner_input_steps(false));
            usb::apply(port, &steps)
        }
    }

    /// Switches direct sampling: off with zero, on with the first input for one, on
    /// with the second input for more. A centre frequency that is set is set anew.
    pub fn set_direct_sampling(&mut self, port: &mut Exchange, on: i32) -> (r: Result<(), Halt>)
        ensures
            (Run { state: final(self)@, port: final(port)@, flow: flow_of(r) })
                == set_direct_sampling_run::<T>(old(self)@, old(port)@, on),
    {
        self.power_tuner(port, on == 0)?;
        self.switch_input(port, on)?;
        self.direct_sampling = on;
        if self.freq > 0 {
            let freq: u32 = self.freq;
            self.set_center_freq(port, freq)?;
        }
        Ok(())
    }

    /// Switches the test mode, in which the samples are a counter. This writes the
    /// whole mode register, which the automatic gain writes too: the later of the
    /// two wins.
    pub fn set_testmode(&self, port: &mut Exchange, on: bool) -> (r: Result<(), Halt>)
        ensures
            (Run { state: (), port: final(port)@, flow: flow_of(r) }) == mode_run(
                old(port)@,
                test_mode(on),
            ),
    {
        usb::demod_write_reg(
            port,
            0,
            0x19,
            if on {
                0x03
            } else {
                0x05
            },
            1,
        )
    }

    /// Switches the bias tee on a GPIO pin.
    pub fn set_bias_tee_gpio(&self, port: &mut Exchange, gpio: u8, on: bool) -> (r: Result<
        (),
        Halt,
    >)
        requires
            gpio < 16,
        ensures
            (Run { state: (), port: final(port)@, flow: flow_of(r) }) == set_bias_tee_run(
                old(port)@,
                gpio,
                on,
            ),
    {
        usb::set_gpio_output(port, gpio)?;
        usb::set_gpio_bit(port, gpio, on)
    }

    /// Switches the bias tee on its usual pin, pin 0.
    pub fn set_bias_tee(&self, port: &mut Exchange, on: bool) -> (r: Result<(), Halt>)
        ensures
            (Run { state: (), port: final(port)@, flow: flow_of(r) }) == set_bias_tee_run(
                old(port)@,
                0,
                on,
            ),
    {
        self.set_bias_tee_gpio(port, 0, on)
    }

    /// Resets the buffer of the sample endpoint.
    pub fn reset_buffer(&self, port: &mut Exchange) -> (r: Result<(), Halt>)
        ensures
            (Run { state: (), port: final(port)@, flow: flow_of(r) }) == steps_run(
                old(port)@,
                reset_buffer_steps(),
            ),
    {
        let steps: [RegStep; 2] = [
            RegStep::Block { block: Block::Usb, addr: USB_EPA_CTL, val: 0x1002, len: 2 },
            RegStep::Block { block: Block::Usb, addr: USB_EPA_CTL, val: 0x0000, len: 2 },
        ];
        assert(steps@ =~= reset_buffer_steps());
        usb::apply(port, &steps)
    }
}

/// Switching the tuner on or off agrees with itself when answers come later.
pub proof fn power_tuner_resumes<T: Tuner>(
    d: Dongle<T::Model>,
    p: Port,
    on: bool,
    more: Seq<Answer>,
)
    ensures
        resumes(p, power_tuner_run::<T>(d, p, on), power_tuner_run::<T>(d, later(p, more), on), more),
{
    if let Some(m) = d.tuner {
        set_i2c_repeater_resumes(p, true, more);
        let early = set_i2c_repeater_run(p, true);
        let late = set_i2c_repeater_run(later(p, more), true);
        in_step(early.port, late.port, more);
        T::init_resumes(m, early.port, more);
        T::init_resumes(m, late.port, Seq::empty());
        T::exit_resumes(m, early.port, more);
        T::exit_resumes(m, late.port, Seq::empty());
        let early2 = if on {
            T::init_run(m, early.port)
        } else {
            T::exit_run(m, early.port)
        };
        let late2 = if on {
            T::init_run(m, late.port)
        } else {
            T::exit_run(m, late.port)
        };
        in_step(early2.port, late2.port, more);
        set_i2c_repeater_resumes(early2.port, false, more);
        set_i2c_repeater_resumes(late2.port, false, Seq::empty());
    }
}

/// Switching the demodulator's input agrees with itself when answers come later.
pub proof fn switch_input_resumes<M>(d: Dongle<M>, p: Port, on: i32, more: Seq<Answer>)
    ensures
        resumes(p, switch_input_run(d, p, on), switch_input_run(d, later(p, more), on), more),
{
    steps_resume(p, direct_steps(on), more);
    let r82xx = d.tuner_type.is_r82xx_spec();
    set_if_freq_resumes(p, d.rtl_xtal, d.corr, tuner_if(r82xx), more);
    let early = set_if_freq_run(p, d.rtl_xtal, d.corr, tuner_if(r82xx));
    let late = set_if_freq_run(later(p, more), d.rtl_xtal, d.corr, tuner_if(r82xx));
    in_step(early.port, late.port, more);
    steps_resume(early.port, tuner_input_steps(r82xx), more);
    steps_resume(late.port, tuner_input_steps(r82xx), Seq::empty());
}

/// Switching direct sampling agrees with itself when answers come later.
pub proof fn set_direct_sampling_resumes<T: Tuner>(
    d: Dongle<T::Model>,
    p: Port,
    on: i32,
    more: Seq<Answer>,
)
    ensures
        resumes(
            p,
            set_direct_sampling_run::<T>(d, p, on),
            set_direct_sampling_run::<T>(d, later(p, more), on),
            more,
        ),
{
    power_tuner_resumes::<T>(d, p, on == 0, more);
    let early = power_tuner_run::<T>(d, p, on == 0);
    let late = power_tuner_run::<T>(d, later(p, more), on == 0);
    in_step(early.port, late.port, more);
    switch_input_resumes(d, early.port, on, more);
    switch_input_resumes(d, late.port, on, Seq::empty());
    let early2 = switch_input_run(d, early.port, on);
    let late2 = switch_input_run(d, late.port, on);
    in_step(early2.port, late2.port, more);
    let early_state = Dongle { direct_sampling: on, ..early.state };
    let late_state = Dongle { direct_sampling: on, ..late.state };
    set_center_freq_resumes::<T>(early_state, early2.port, d.freq, more);
    set_center_freq_resumes::<T>(late_state, late2.port, d.freq, Seq::empty());
}

/// Switching the bias tee agrees with itself when answers come later.
pub proof fn set_bias_tee_resumes(p: Port, gpio: u8, on: bool, more: Seq<Answer>)
    ensures
        resumes(
            p,
            set_bias_tee_run(p, gpio, on),
            set_bias_tee_run(later(p, more), gpio, on),
            more,
        ),
{
    set_gpio_output_resumes(p, gpio, more);
    let early = set_gpio_output_run(p, gpio);
    let late = set_gpio_output_run(later(p, more), gpio);
    in_step(early.port, late.port, more);
    pin_resumes(early.port, GPO, gpio, on, more);
    pin_resumes(late.port, GPO, gpio, on, Seq::empty());
}

/// Direct sampling changes only where the whole switch has gone through up to the
/// setting of the centre frequency.
pub proof fn direct_sampling_changes_last<T: Tuner>(d: Dongle<T::Model>, p: Port, on: i32)
    ensures
        ({
            let t = power_tuner_run::<T>(d, p, on == 0);
            let s = switch_input_run(d, t.port, on);
            set_direct_sampling_run::<T>(d, p, on).state.direct_sampling == (if t.flow is Done
                && s.flow is Done {
                on
            } else {
                d.direct_sampling
            })
        }),
{
}

/// No test mode has the bit of the automatic gain, and of the gain modes the one
/// that is on has it: leaving the test mode always leaves the automatic gain off.
pub proof fn test_mode_switches_agc_off(on: bool)
    ensures
        test_mode(on) & 0x20 == 0,
        agc_mode(true) & 0x20 != 0,
        agc_mode(false) & 0x20 == 0,
        test_mode(false) == agc_mode(false),
{
    assert(0x03u16 & 0x20 == 0 && 0x05u16 & 0x20 == 0 && 0x25u16 & 0x20 != 0) by (bit_vector);
}

} // verus!
