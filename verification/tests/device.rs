use librtlsdr_rs::device::frequency::{offset_tuning_floor, rate_for_ratio};
use librtlsdr_rs::device::RtlSdrDevice;
use librtlsdr_rs::error::{RtlSdrError, TunerError, UsbError};
use librtlsdr_rs::exchange::{Exchange, Halt, Reply, Request};
use librtlsdr_rs::reg::{Block, TunerType};
use librtlsdr_rs::tuner::r82xx::constants::{bitrev, R82xxChip};
use librtlsdr_rs::tuner::r82xx::{R82xxConfig, R82xxPriv};

type Device = RtlSdrDevice<R82xxPriv>;

/// Writes that were made: value, index, data.
type Writes = Vec<(u16, u16, Vec<u8>)>;

const XTAL: u32 = 28_800_000;

/// A dongle on the bench.
struct Bench {
    tuner: [u8; 256],
    /// Whether the PLL locks.
    locks: bool,
    /// Whether the tuner takes what is written to it.
    takes: bool,
    /// Number of the demodulator write that fails.
    fail: Option<usize>,
    demod_writes: usize,
    /// Whether the I2C repeater is on. The tuner hears nothing while it is off.
    repeater: bool,
}

impl Bench {
    fn new() -> Bench {
        Bench {
            tuner: [0; 256],
            locks: true,
            takes: true,
            fail: None,
            demod_writes: 0,
            repeater: false,
        }
    }

    fn answer(&mut self, t: &Request) -> Reply {
        match t {
            Request::ControlOut { value: 0x34, index: 0x0610, data } => {
                assert!(self.repeater, "a write to the tuner while the repeater is off");
                if !self.takes {
                    return Reply::Sent(0);
                }
                for (i, b) in data[1..].iter().enumerate() {
                    self.tuner[data[0] as usize + i] = *b;
                }
                Reply::Sent(data.len())
            }
            Request::ControlOut { value, index, data } => {
                self.demod_writes += 1;
                if self.fail == Some(self.demod_writes - 1) {
                    return Reply::Failed(UsbError::Pipe);
                }
                if (*value, *index) == (0x0120, 0x11) {
                    self.repeater = data[0] & 0x08 != 0;
                }
                Reply::Sent(data.len())
            }
            Request::ControlIn { value: 0x34, index: 0x0600, len } => {
                assert!(self.repeater, "a read from the tuner while the repeater is off");
                let status = [0x69, 0x00, if self.locks { 0x40 } else { 0x00 }, 0x00, 0x27];
                Reply::Received(status[..*len].iter().map(|b| bitrev(*b)).collect())
            }
            Request::ControlIn { len, .. } => Reply::Received(vec![0; *len]),
        }
    }

    /// Runs an operation to its end; returns its result and what was written beside
    /// the tuner.
    fn run<A>(
        &mut self,
        dev: &mut Device,
        op: impl Fn(&mut Device, &mut Exchange) -> Result<A, Halt>,
    ) -> (Result<A, RtlSdrError>, Writes) {
        let start = dev.clone();
        let mut replies = Vec::new();
        self.demod_writes = 0;
        loop {
            let mut port = Exchange::new(replies);
            *dev = start.clone();
            let r = match op(dev, &mut port) {
                Ok(a) => Ok(a),
                Err(Halt::Failed(e)) => Err(e),
                Err(Halt::Waiting) => {
                    let reply = self.answer(port.awaited().expect("a transfer is awaited"));
                    replies = port.into_replies();
                    replies.push(reply);
                    continue;
                }
            };
            let writes = port
                .requests()
                .iter()
                .filter_map(|t| match t {
                    Request::ControlOut { value, index, data } if *index != 0x0610 => {
                        Some((*value, *index, data.clone()))
                    }
                    _ => None,
                })
                .collect();
            return (r, writes);
        }
    }

    /// The frequency of the local oscillator in Hz, as the registers have it.
    fn lo(&self) -> u64 {
        let divider = 2u64 << (self.tuner[0x10] >> 5);
        let nint = 13 + 4 * u64::from(self.tuner[0x14] % 64) + u64::from(self.tuner[0x14] / 64);
        let word =
            65536 * nint + 256 * u64::from(self.tuner[0x16]) + u64::from(self.tuner[0x15]);
        2 * u64::from(XTAL) * word / 65536 / divider
    }

    fn assert_lo(&self, wanted: u32) {
        let lo = self.lo();
        assert!(lo.abs_diff(u64::from(wanted)) < 500, "at {lo} Hz, not at {wanted} Hz");
    }
}

fn device(tuner_type: TunerType) -> (Device, Bench) {
    let tuner = R82xxPriv::new(&R82xxConfig {
        i2c_addr: 0x34,
        xtal: XTAL,
        rafael_chip: R82xxChip::R820T,
        max_i2c_msg_len: 8,
        use_predetect: false,
    });
    let mut dev = RtlSdrDevice::new(Some(tuner), tuner_type, XTAL, XTAL);
    let mut bench = Bench::new();
    let (r, _) = bench.run(&mut dev, |d, port| d.set_direct_sampling(port, 0));
    assert_eq!(r, Ok(()));
    (dev, bench)
}

fn tuner(dev: &Device) -> &R82xxPriv {
    dev.tuner.as_ref().expect("the device has a tuner")
}

fn no_lock(freq_hz: u32) -> RtlSdrError {
    RtlSdrError::Tuner(TunerError::PllNotLocked { freq_hz })
}

fn not_taken(expected: usize) -> RtlSdrError {
    RtlSdrError::Tuner(TunerError::I2cTransferFailed { operation: "write", got: 0, expected })
}

fn assert_repeater_closed(writes: &Writes) {
    let last = writes
        .iter()
        .filter(|w| w.0 == 0x0120 && w.1 == 0x11)
        .last()
        .expect("the repeater was switched");
    assert_eq!(last.2, vec![0x10]);
}

#[test]
fn center_frequency_goes_to_the_tuner() {
    let (mut dev, mut bench) = device(TunerType::R820T);
    let (r, writes) = bench.run(&mut dev, |d, port| d.set_center_freq(port, 100_000_000));
    assert_eq!(r, Ok(()));
    assert_eq!(dev.freq, 100_000_000);
    bench.assert_lo(103_570_000);
    assert_eq!(
        writes,
        vec![(0x0120, 0x11, vec![0x18]), (0x0120, 0x11, vec![0x10])]
    );
}

#[test]
fn every_operation_leaves_the_repeater_off() {
    let (mut dev, mut bench) = device(TunerType::E4000);
    let operations: Vec<fn(&mut Device, &mut Exchange) -> Result<(), Halt>> = vec![
        |d, port| d.set_sample_rate(port, 2_048_000),
        |d, port| d.set_center_freq(port, 100_000_000),
        |d, port| d.set_freq_correction(port, 20),
        |d, port| d.set_tuner_bandwidth(port, 300_000),
        |d, port| d.set_offset_tuning(port, true),
        |d, port| d.set_sample_rate(port, 1_024_000),
        |d, port| d.set_tuner_gain_mode(port, true),
        |d, port| d.set_tuner_gain(port, 300),
        |d, port| d.set_tuner_if_gain(port, 1, 60),
        |d, port| d.set_agc_mode(port, true),
        |d, port| d.set_testmode(port, false),
        |d, port| d.set_bias_tee(port, true),
        |d, port| d.reset_buffer(port),
        |d, port| d.set_direct_sampling(port, 2),
        |d, port| d.set_direct_sampling(port, 0),
    ];
    for (i, op) in operations.iter().enumerate() {
        let (r, _) = bench.run(&mut dev, op);
        assert_eq!(r, Ok(()), "operation {i}");
        assert!(!bench.repeater, "operation {i}");
    }
    assert_eq!(dev.freq, 100_000_000);
}

#[test]
fn refused_center_frequency_is_forgotten() {
    let (mut dev, mut bench) = device(TunerType::R820T);
    dev.freq = 99;
    bench.locks = false;
    let (r, writes) = bench.run(&mut dev, |d, port| d.set_center_freq(port, 100_000_000));
    assert_eq!(r, Err(no_lock(103_570_000)));
    assert_eq!(dev.freq, 0);
    assert_repeater_closed(&writes);
}

#[test]
fn repeater_failure_leaves_the_frequency() {
    let (mut dev, mut bench) = device(TunerType::R820T);
    dev.freq = 99;
    for fail in 0..2 {
        bench.fail = Some(fail);
        let (r, _) = bench.run(&mut dev, |d, port| d.set_center_freq(port, 100_000_000));
        assert_eq!(r, Err(RtlSdrError::Usb(UsbError::Pipe)));
        assert_eq!(dev.freq, 99);
    }
}

#[test]
fn frequency_below_the_offset_is_refused() {
    let (mut dev, mut bench) = device(TunerType::E4000);
    dev.offs_freq = 1_740_800;
    let (r, writes) = bench.run(&mut dev, |d, port| d.set_center_freq(port, 1_000_000));
    assert_eq!(
        r,
        Err(RtlSdrError::InvalidParameter(
            "freq 1000000 Hz is below the offset-tuning floor 1740800 Hz".to_string()
        ))
    );
    assert!(writes.is_empty());
    assert_eq!(dev.freq, 0);
}

#[test]
fn device_without_tuner_cannot_tune() {
    let mut dev: Device = RtlSdrDevice::new(None, TunerType::Unknown, XTAL, XTAL);
    let mut bench = Bench::new();
    let (r, writes) = bench.run(&mut dev, |d, port| d.set_center_freq(port, 100_000_000));
    assert_eq!(r, Err(RtlSdrError::NoTuner));
    assert!(writes.is_empty());
    assert_eq!(bench.run(&mut dev, |d, port| d.set_tuner_gain(port, 10)).0, Ok(()));
    assert_eq!(bench.run(&mut dev, |d, port| d.set_tuner_gain_mode(port, true)).0, Ok(()));
    assert_eq!(bench.run(&mut dev, |d, port| d.set_tuner_if_gain(port, 1, 10)).0, Ok(()));
    assert_eq!(bench.run(&mut dev, |d, port| d.set_tuner_bandwidth(port, 10)).0, Ok(()));
    assert_eq!((dev.gain, dev.bw), (0, 0));
}

#[test]
fn direct_sampling_tunes_the_demodulator() {
    let (mut dev, mut bench) = device(TunerType::E4000);
    dev.direct_sampling = 2;
    let (r, writes) = bench.run(&mut dev, |d, port| d.set_center_freq(port, 7_200_000));
    assert_eq!(r, Ok(()));
    // A quarter of the crystal, negated, in 22 bits.
    assert_eq!(
        writes,
        vec![
            (0x1920, 0x11, vec![0x30]),
            (0x1a20, 0x11, vec![0x00]),
            (0x1b20, 0x11, vec![0x00]),
        ]
    );
}

#[test]
fn intermediate_frequency_word_is_exact() {
    let (mut dev, mut bench) = device(TunerType::R820T);
    let (r, writes) = bench.run(&mut dev, |d, port| d.set_if_freq(port, 3_570_000));
    assert_eq!(r, Ok(()));
    let word = (1 << 22) - 3_570_000u64 * (1 << 22) / 28_800_000;
    assert_eq!(word, 3_674_386);
    assert_eq!(
        writes,
        vec![
            (0x1920, 0x11, vec![(word >> 16) as u8]),
            (0x1a20, 0x11, vec![(word >> 8) as u8]),
            (0x1b20, 0x11, vec![word as u8]),
        ]
    );
}

#[test]
fn sample_rates_outside_the_ranges_are_refused() {
    for rate in [0, 225_000, 300_001, 900_000, 3_200_001, u32::MAX] {
        let (mut dev, mut bench) = device(TunerType::R820T);
        let (r, writes) = bench.run(&mut dev, |d, port| d.set_sample_rate(port, rate));
        assert_eq!(r, Err(RtlSdrError::InvalidSampleRate { rate_hz: rate }));
        assert!(writes.is_empty());
        assert_eq!(dev.rate, 0);
    }
}

#[test]
fn nominal_crystal_meets_every_rate() {
    for rate in [225_001, 250_000, 300_000, 900_001, 1_024_000, 2_048_000, 2_400_000, 3_200_000] {
        let (mut dev, mut bench) = device(TunerType::R820T);
        let (r, _) = bench.run(&mut dev, |d, port| d.set_sample_rate(port, rate));
        assert_eq!(r, Ok(()));
        assert_eq!(dev.rate, rate);
    }
}

#[test]
fn ratio_bit_27_stands_for_bit_28() {
    assert_eq!(rate_for_ratio(28_800_000, 0x0800_0000), 300_000);
    assert_eq!(rate_for_ratio(28_800_000, 0x0400_0000), 1_800_000);
    assert_eq!(rate_for_ratio(28_800_000, 0), u32::MAX);
    assert_eq!(rate_for_ratio(0, 0), 0);
}

#[test]
fn sample_rate_programs_ratio_and_reset() {
    let (mut dev, mut bench) = device(TunerType::R820T);
    dev.freq = 100_000_000;
    let (r, writes) = bench.run(&mut dev, |d, port| d.set_sample_rate(port, 2_048_000));
    assert_eq!(r, Ok(()));
    assert_eq!(tuner(&dev).int_freq, 1_625_000);
    bench.assert_lo(101_625_000);
    let ratio = 28_800_000u64 * (1 << 22) / 2_048_000;
    let ratio = ratio - ratio % 4;
    assert_eq!(
        &writes[writes.len() - 6..],
        &[
            (0x9f20, 0x11, vec![(ratio >> 24) as u8, (ratio >> 16) as u8]),
            (0xa120, 0x11, vec![(ratio >> 8) as u8, ratio as u8]),
            (0x3f20, 0x11, vec![0x00]),
            (0x3e20, 0x11, vec![0x00]),
            (0x0120, 0x11, vec![0x14]),
            (0x0120, 0x11, vec![0x10]),
        ]
    );
    // Repeater on, intermediate frequency, repeater off.
    assert_eq!(writes[0], (0x0120, 0x11, vec![0x18]));
    assert_eq!(writes[1].0, 0x1920);
    assert_eq!(writes[4], (0x0120, 0x11, vec![0x10]));
}

#[test]
fn sample_rate_survives_a_refusing_tuner() {
    let (mut dev, mut bench) = device(TunerType::R820T);
    dev.freq = 100_000_000;
    bench.locks = false;
    let (r, _) = bench.run(&mut dev, |d, port| d.set_sample_rate(port, 2_048_000));
    assert_eq!(r, Ok(()));
    assert_eq!((dev.rate, dev.freq), (2_048_000, 0));

    let (mut dev, mut bench) = device(TunerType::R820T);
    dev.freq = 100_000_000;
    bench.takes = false;
    let (r, writes) = bench.run(&mut dev, |d, port| d.set_sample_rate(port, 2_048_000));
    assert_eq!(r, Ok(()));
    assert_eq!((dev.rate, dev.freq), (2_048_000, 100_000_000));
    assert!(writes.iter().all(|w| w.0 != 0x1920));
}

#[test]
fn offset_tuning_lies_below_the_center() {
    let (mut dev, mut bench) = device(TunerType::E4000);
    dev.rate = 2_048_000;
    dev.freq = 100_000_000;
    let (r, writes) = bench.run(&mut dev, |d, port| d.set_offset_tuning(port, true));
    assert_eq!(r, Ok(()));
    assert_eq!(offset_tuning_floor(2_048_000), 1_740_800);
    assert_eq!(dev.offs_freq, 1_740_800);
    // Twice the offset is a bandwidth of the 6 MHz filter.
    assert_eq!(tuner(&dev).int_freq, 3_570_000);
    bench.assert_lo(100_000_000 - 1_740_800 + 3_570_000);
    assert_repeater_closed(&writes);
    let (r, _) = bench.run(&mut dev, |d, port| d.set_offset_tuning(port, false));
    assert_eq!(r, Ok(()));
    assert_eq!((dev.offs_freq, tuner(&dev).int_freq), (0, 1_625_000));
    bench.assert_lo(101_625_000);
}

#[test]
fn refused_offset_tuning_changes_nothing() {
    let refused = |dev: &mut Device, bench: &mut Bench, message: &str| {
        let before = dev.clone();
        let (r, writes) = bench.run(dev, |d, port| d.set_offset_tuning(port, true));
        assert_eq!(r, Err(RtlSdrError::InvalidParameter(message.to_string())));
        assert!(writes.is_empty());
        assert_eq!((dev.offs_freq, dev.freq), (before.offs_freq, before.freq));
        assert_eq!(tuner(dev).regs, tuner(&before).regs);
    };
    let (mut dev, mut bench) = device(TunerType::R828D);
    refused(&mut dev, &mut bench, "offset tuning not supported for R82XX tuners");
    let (mut dev, mut bench) = device(TunerType::E4000);
    dev.direct_sampling = 1;
    refused(&mut dev, &mut bench, "offset tuning not available in direct sampling mode");
    let (mut dev, mut bench) = device(TunerType::E4000);
    dev.rate = 2_048_000;
    dev.freq = 1_740_800;
    refused(
        &mut dev,
        &mut bench,
        "freq 1740800 Hz is at or below the offset-tuning floor 1740800 Hz",
    );
}

#[test]
fn offset_tuning_is_refused_at_any_rate() {
    for (tuner_type, direct) in [(TunerType::R820T, 0), (TunerType::E4000, 1)] {
        let (mut dev, mut bench) = device(tuner_type);
        dev.direct_sampling = direct;
        dev.rate = u32::MAX;
        let (r, writes) = bench.run(&mut dev, |d, port| d.set_offset_tuning(port, true));
        assert!(matches!(r, Err(RtlSdrError::InvalidParameter(_))));
        assert!(writes.is_empty());
    }
}

#[test]
fn sample_rate_is_refused_before_offset_tuning_would_be() {
    let (mut dev, mut bench) = device(TunerType::E4000);
    dev.rate = 1_024_000;
    dev.freq = 1_000_000;
    dev.offs_freq = offset_tuning_floor(1_024_000);
    let (r, writes) = bench.run(&mut dev, |d, port| d.set_sample_rate(port, 2_048_000));
    assert_eq!(
        r,
        Err(RtlSdrError::InvalidParameter(
            "freq 1000000 Hz is at or below the offset-tuning floor 1740800 Hz".to_string()
        ))
    );
    assert!(writes.is_empty());
    assert_eq!(dev.rate, 1_024_000);
    dev.freq = 100_000_000;
    let (r, _) = bench.run(&mut dev, |d, port| d.set_sample_rate(port, 2_048_000));
    assert_eq!(r, Ok(()));
    assert_eq!((dev.rate, dev.offs_freq), (2_048_000, 1_740_800));
    bench.assert_lo(98_259_200 + 3_570_000);
}

#[test]
fn bandwidth_is_kept_only_where_the_tuner_took_it() {
    let (mut dev, mut bench) = device(TunerType::R820T);
    dev.rate = 2_048_000;
    let (r, writes) = bench.run(&mut dev, |d, port| d.set_tuner_bandwidth(port, 1_500_000));
    assert_eq!(r, Ok(()));
    assert_eq!((dev.bw, tuner(&dev).int_freq), (1_500_000, 1_525_000));
    assert_eq!(writes[1].0, 0x1920);
    assert_repeater_closed(&writes);
    let (r, _) = bench.run(&mut dev, |d, port| d.set_tuner_bandwidth(port, 0));
    assert_eq!(r, Ok(()));
    assert_eq!((dev.bw, tuner(&dev).int_freq), (0, 1_625_000));
    dev.bw = 7;
    bench.takes = false;
    let (r, writes) = bench.run(&mut dev, |d, port| d.set_tuner_bandwidth(port, 7_000_000));
    assert_eq!(r, Err(not_taken(2)));
    assert_eq!(dev.bw, 7);
    assert_repeater_closed(&writes);
}

#[test]
fn bandwidth_that_cannot_retune_forgets_the_frequency() {
    let (mut dev, mut bench) = device(TunerType::R820T);
    dev.freq = 100_000_000;
    bench.locks = false;
    let (r, _) = bench.run(&mut dev, |d, port| d.set_tuner_bandwidth(port, 1_500_000));
    assert_eq!(r, Ok(()));
    assert_eq!((dev.bw, dev.freq), (1_500_000, 0));
}

#[test]
fn correction_reaches_clock_and_tuner() {
    let (mut dev, mut bench) = device(TunerType::R820T);
    let (r, writes) = bench.run(&mut dev, |d, port| d.set_freq_correction(port, 60));
    assert_eq!(r, Ok(()));
    // -60 * 2^24 / 10^6 = -1006
    assert_eq!(
        writes,
        vec![(0x3f20, 0x11, vec![0x12]), (0x3e20, 0x11, vec![0x3c])]
    );
    assert_eq!(tuner(&dev).xtal, 28_801_728);
    assert_eq!(dev.get_tuner_xtal(), 28_801_728);
    let (r, writes) = bench.run(&mut dev, |d, port| d.set_freq_correction(port, 60));
    assert_eq!(r, Ok(()));
    assert!(writes.is_empty());
    let (_, writes) = bench.run(&mut dev, |d, port| d.set_freq_correction(port, -60));
    assert_eq!(
        writes,
        vec![(0x3f20, 0x11, vec![0xee]), (0x3e20, 0x11, vec![0x03])]
    );
    assert_eq!(tuner(&dev).xtal, 28_798_272);
    let (_, writes) = bench.run(&mut dev, |d, port| d.set_freq_correction(port, i32::MIN));
    assert_eq!(
        writes,
        vec![(0x3f20, 0x11, vec![0xff]), (0x3e20, 0x11, vec![0x3f])]
    );
    assert_eq!(tuner(&dev).xtal, 0);
}

#[test]
fn correction_tunes_again() {
    let (mut dev, mut bench) = device(TunerType::R820T);
    dev.freq = 100_000_000;
    let (r, writes) = bench.run(&mut dev, |d, port| d.set_freq_correction(port, 1));
    assert_eq!(r, Ok(()));
    bench.assert_lo(103_570_000);
    assert_repeater_closed(&writes);
}

#[test]
fn reported_gain_is_the_last_taken() {
    let (mut dev, mut bench) = device(TunerType::R820T);
    let (r, writes) = bench.run(&mut dev, |d, port| d.set_tuner_gain(port, 144));
    assert_eq!(r, Ok(()));
    assert_eq!(dev.gain, 144);
    assert_eq!((bench.tuner[0x05] & 0x0f, bench.tuner[0x07] & 0x0f), (4, 4));
    assert_repeater_closed(&writes);
    // The tuner takes the gain, the repeater cannot be switched off.
    bench.fail = Some(1);
    let (r, _) = bench.run(&mut dev, |d, port| d.set_tuner_gain(port, 207));
    assert_eq!(r, Err(RtlSdrError::Usb(UsbError::Pipe)));
    assert_eq!(dev.gain, 207);
    bench.fail = None;
    bench.takes = false;
    let (r, _) = bench.run(&mut dev, |d, port| d.set_tuner_gain(port, 10));
    assert!(matches!(r, Err(RtlSdrError::Tuner(TunerError::I2cTransferFailed { .. }))));
    assert_eq!(dev.gain, 207);
}

#[test]
fn gain_mode_and_if_gain_reach_the_tuner() {
    let (mut dev, mut bench) = device(TunerType::R820T);
    let (r, writes) = bench.run(&mut dev, |d, port| d.set_tuner_gain_mode(port, true));
    assert_eq!(r, Ok(()));
    assert_eq!(bench.tuner[0x05] & 0x10, 0x10);
    assert_repeater_closed(&writes);
    let (r, writes) = bench.run(&mut dev, |d, port| d.set_tuner_if_gain(port, 3, 60));
    assert_eq!(r, Ok(()));
    assert_repeater_closed(&writes);
    bench.takes = false;
    let (r, writes) = bench.run(&mut dev, |d, port| d.set_tuner_gain_mode(port, false));
    assert_eq!(r, Err(not_taken(2)));
    assert_repeater_closed(&writes);
}

#[test]
fn leaving_the_test_mode_leaves_agc_off() {
    let (mut dev, mut bench) = device(TunerType::R820T);
    let mut mode = 0;
    for step in 0..4 {
        let (r, writes) = bench.run(&mut dev, |d, port| match step {
            0 => d.set_agc_mode(port, true),
            1 => d.set_testmode(port, true),
            2 => d.set_testmode(port, false),
            _ => d.set_agc_mode(port, false),
        });
        assert_eq!(r, Ok(()));
        assert_eq!((writes[0].0, writes[0].1, writes.len()), (0x1920, 0x10, 1));
        mode = writes[0].2[0];
        assert_eq!(mode, [0x25, 0x03, 0x05, 0x05][step]);
    }
    assert_eq!(mode & 0x20, 0);
}

#[test]
fn direct_sampling_switches_tuner_and_demodulator() {
    let (mut dev, mut bench) = device(TunerType::E4000);
    let (r, writes) = bench.run(&mut dev, |d, port| d.set_direct_sampling(port, 2));
    assert_eq!(r, Ok(()));
    assert_eq!((dev.direct_sampling, bench.tuner[0x06]), (2, 0xb1));
    assert_eq!(
        writes[2..],
        [
            (0xb120, 0x11, vec![0x1a]),
            (0x1520, 0x11, vec![0x00]),
            (0x0820, 0x10, vec![0x4d]),
            (0x0620, 0x10, vec![0x90]),
        ]
    );
    let (_, writes) = bench.run(&mut dev, |d, port| d.set_direct_sampling(port, 1));
    assert_eq!(writes[5], (0x0620, 0x10, vec![0x80]));
    dev.freq = 100_000_000;
    let (r, writes) = bench.run(&mut dev, |d, port| d.set_direct_sampling(port, 0));
    assert_eq!(r, Ok(()));
    assert_eq!((dev.direct_sampling, dev.freq), (0, 100_000_000));
    bench.assert_lo(103_570_000);
    assert_eq!(
        writes[5..8],
        [
            (0x0820, 0x10, vec![0xcd]),
            (0xb120, 0x11, vec![0x1b]),
            (0x0620, 0x10, vec![0x80]),
        ]
    );
    let (mut dev, mut bench) = device(TunerType::R820T);
    let (_, writes) = bench.run(&mut dev, |d, port| d.set_direct_sampling(port, 0));
    assert_eq!(writes[5..], [(0x1520, 0x11, vec![0x01]), (0x0620, 0x10, vec![0x80])]);
}

#[test]
fn tuner_that_does_not_power_down_stops_direct_sampling() {
    let (mut dev, mut bench) = device(TunerType::E4000);
    bench.takes = false;
    let (r, writes) = bench.run(&mut dev, |d, port| d.set_direct_sampling(port, 1));
    assert_eq!(r, Err(not_taken(2)));
    assert_eq!(dev.direct_sampling, 0);
    assert_eq!(writes, vec![(0x0120, 0x11, vec![0x18])]);
}

#[test]
fn bias_tee_is_a_pin() {
    let (mut dev, mut bench) = device(TunerType::R820T);
    let (r, writes) = bench.run(&mut dev, |d, port| d.set_bias_tee(port, true));
    assert_eq!(r, Ok(()));
    assert_eq!(
        writes,
        vec![
            (0x3004, 0x0210, vec![0x00]),
            (0x3003, 0x0210, vec![0x01]),
            (0x3001, 0x0210, vec![0x01]),
        ]
    );
    let (_, writes) = bench.run(&mut dev, |d, port| d.set_bias_tee_gpio(port, 4, true));
    assert_eq!(writes[2], (0x3001, 0x0210, vec![0x10]));
}

#[test]
fn buffer_reset_stalls_and_clears_the_endpoint() {
    let (mut dev, mut bench) = device(TunerType::R820T);
    let (r, writes) = bench.run(&mut dev, |d, port| d.reset_buffer(port));
    assert_eq!(r, Ok(()));
    assert_eq!(
        writes,
        vec![(0x2148, 0x0110, vec![0x10, 0x02]), (0x2148, 0x0110, vec![0x00, 0x00])]
    );
}

#[test]
fn short_write_names_the_demodulator_register() {
    let (dev, _) = device(TunerType::R820T);
    let mut port = Exchange::new(vec![Reply::Sent(0), Reply::Received(vec![0])]);
    assert_eq!(
        dev.set_agc_mode(&mut port, true),
        Err(Halt::Failed(RtlSdrError::RegisterAccess { block: Block::Demod, address: 0x19 }))
    );
}
