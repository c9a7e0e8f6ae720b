use librtlsdr_rs::error::{RtlSdrError, TunerError, UsbError};
use librtlsdr_rs::exchange::{Exchange, Halt, Reply, Request};
use librtlsdr_rs::tuner::r82xx::bandwidth::plan_band;
use librtlsdr_rs::tuner::r82xx::constants::{
    bitrev, R82xxChip, NUM_REGS, R82XX_INIT_ARRAY, R82XX_LNA_GAIN_STEPS, R82XX_MIXER_GAIN_STEPS,
};
use librtlsdr_rs::tuner::r82xx::gain::find_gain_rung;
use librtlsdr_rs::tuner::r82xx::{R82xxConfig, R82xxPriv};
use librtlsdr_rs::tuner::Tuner;

/// A tuner on the bench: it keeps what is written to its registers and answers
/// reads with its status bytes.
struct Bench {
    regs: [u8; 256],
    messages: Vec<Vec<u8>>,
    gpo: u8,
    /// Status of successive reads; the last one stays.
    status: Vec<[u8; 5]>,
    reads: usize,
    /// Messages after which a write is cut short.
    short_write: Option<usize>,
}

impl Bench {
    fn new() -> Bench {
        Bench {
            regs: [0xa5; 256],
            messages: Vec::new(),
            gpo: 0,
            status: vec![[0x69, 0x00, 0x40, 0x00, 0x27]],
            reads: 0,
            short_write: None,
        }
    }

    fn answer(&mut self, t: &Request) -> Reply {
        match t {
            Request::ControlOut { value: 0x34, index: 0x0610, data } => {
                if self.short_write == Some(self.messages.len()) {
                    return Reply::Sent(data.len() - 1);
                }
                self.messages.push(data.clone());
                for (i, b) in data[1..].iter().enumerate() {
                    self.regs[data[0] as usize + i] = *b;
                }
                Reply::Sent(data.len())
            }
            Request::ControlOut { value: 0x3001, data, .. } => {
                self.gpo = data[0];
                Reply::Sent(1)
            }
            Request::ControlOut { data, .. } => Reply::Sent(data.len()),
            Request::ControlIn { value: 0x34, index: 0x0600, len } => {
                let at = self.reads.min(self.status.len() - 1);
                self.reads += 1;
                Reply::Received(self.status[at][..*len].iter().map(|b| bitrev(*b)).collect())
            }
            Request::ControlIn { value: 0x3001, .. } => Reply::Received(vec![self.gpo]),
            Request::ControlIn { len, .. } => Reply::Received(vec![0; *len]),
        }
    }

    fn run<A>(
        &mut self,
        tuner: &mut R82xxPriv,
        op: impl Fn(&mut R82xxPriv, &mut Exchange) -> Result<A, Halt>,
    ) -> Result<A, RtlSdrError> {
        let start = tuner.clone();
        let mut replies = Vec::new();
        loop {
            let mut port = Exchange::new(replies);
            *tuner = start.clone();
            match op(tuner, &mut port) {
                Ok(a) => return Ok(a),
                Err(Halt::Failed(e)) => return Err(e),
                Err(Halt::Waiting) => {
                    let reply = self.answer(port.awaited().expect("a transfer is awaited"));
                    replies = port.into_replies();
                    replies.push(reply);
                }
            }
        }
    }

    fn assert_shadow_true(&self, tuner: &R82xxPriv) {
        for k in 0..27 {
            assert_eq!(tuner.regs[k], self.regs[k + 5], "register {:#x}", k + 5);
        }
    }
}

fn tuner(chip: R82xxChip) -> R82xxPriv {
    R82xxPriv::new(&R82xxConfig {
        i2c_addr: 0x34,
        xtal: 28_800_000,
        rafael_chip: chip,
        max_i2c_msg_len: 8,
        use_predetect: false,
    })
}

fn ready(chip: R82xxChip) -> (R82xxPriv, Bench) {
    let mut t = tuner(chip);
    let mut bench = Bench::new();
    bench.run(&mut t, |t, port| t.init(port)).expect("the tuner initialises");
    bench.messages.clear();
    bench.reads = 0;
    (t, bench)
}

#[test]
fn shadow_takes_what_fits() {
    let mut t = tuner(R82xxChip::R820T);
    t.shadow_store(0x03, &[1, 2, 3, 4]);
    assert_eq!(&t.regs[..3], &[3, 4, 0]);
    t.shadow_store(0x21, &[7, 8, 9]);
    assert_eq!(&t.regs[27..], &[0, 7, 8]);
    t.shadow_store(0x01, &[5]);
    assert_eq!(t.regs[0], 3);
    assert!(t.shadow_equal(0x05, &[3, 4, 0]));
    assert!(!t.shadow_equal(0x05, &[3, 5]));
    assert!(!t.shadow_equal(0x04, &[2, 3]));
    assert!(!t.shadow_equal(0x22, &[8, 9]));
    assert_eq!(t.read_cache_reg(0x06), Some(4));
    assert_eq!(t.read_cache_reg(0x04), None);
    assert_eq!(t.read_cache_reg(0x23), None);
}

#[test]
fn shadow_holds_what_was_stored() {
    let mut t = tuner(R82xxChip::R820T);
    t.shadow_store(0x10, &[1, 2, 3]);
    assert!(t.shadow_equal(0x10, &[1, 2, 3]));
    assert!(!t.shadow_equal(0x10, &[1, 2, 4]));
    assert_eq!(t.read_cache_reg(0x11), Some(2));
    assert_eq!(t.read_cache_reg(0x13), Some(0));
    assert!(t.shadow_equal(0x23, &[]));
    assert!(!t.shadow_equal(0x24, &[]));
    assert!(!t.shadow_equal(0x05, &[0; 31]));
}

#[test]
fn long_write_goes_out_in_messages() {
    let mut t = tuner(R82xxChip::R820T);
    let mut bench = Bench::new();
    let values: Vec<u8> = (1..=20).collect();
    bench.run(&mut t, |t, port| t.write(port, 0x05, &values)).expect("the write goes through");
    let sizes: Vec<usize> = bench.messages.iter().map(|m| m.len()).collect();
    assert_eq!(sizes, vec![8, 8, 7]);
    let starts: Vec<u8> = bench.messages.iter().map(|m| m[0]).collect();
    assert_eq!(starts, vec![0x05, 0x0c, 0x13]);
    let sent: Vec<u8> = bench.messages.iter().flat_map(|m| m[1..].to_vec()).collect();
    assert_eq!(sent, values);
    assert_eq!(&t.regs[..20], &values[..]);
}

#[test]
fn write_of_what_the_shadow_holds_is_not_sent() {
    let mut t = tuner(R82xxChip::R820T);
    let mut bench = Bench::new();
    bench.run(&mut t, |t, port| t.write_reg(port, 0x0a, 0x36)).expect("first write");
    bench.run(&mut t, |t, port| t.write_reg(port, 0x0a, 0x36)).expect("second write");
    assert_eq!(bench.messages, vec![vec![0x0a, 0x36]]);
}

#[test]
fn short_message_leaves_the_shadow() {
    let mut t = tuner(R82xxChip::R820T);
    let mut bench = Bench::new();
    bench.short_write = Some(1);
    let r = bench.run(&mut t, |t, port| t.write(port, 0x05, &[1; 10]));
    assert_eq!(
        r,
        Err(RtlSdrError::Tuner(TunerError::I2cTransferFailed {
            operation: "write",
            got: 3,
            expected: 4,
        }))
    );
    assert_eq!(t.regs, [0; NUM_REGS]);
}

#[test]
fn masked_write_needs_a_shadow() {
    let mut t = tuner(R82xxChip::R820T);
    let mut bench = Bench::new();
    t.shadow_store(0x1a, &[0b1010_1010]);
    bench.run(&mut t, |t, port| t.write_reg_mask(port, 0x1a, 0xff, 0x0f)).expect("masked write");
    assert_eq!(bench.messages, vec![vec![0x1a, 0b1010_1111]]);
    assert_eq!(
        bench.run(&mut t, |t, port| t.write_reg_mask(port, 0x04, 0xff, 0x0f)),
        Err(RtlSdrError::Tuner(TunerError::ShadowCacheMiss { reg: 0x04 }))
    );
}

#[test]
fn registers_are_read_with_their_bits_reversed() {
    let t = tuner(R82xxChip::R820T);
    let mut port = Exchange::new(vec![Reply::Sent(1), Reply::Received(vec![0x96, 0x80, 0x01])]);
    assert_eq!(t.read(&mut port, 0x00, 3), Ok(vec![0x69, 0x01, 0x80]));
    assert_eq!(
        port.requests(),
        &vec![
            Request::ControlOut { value: 0x34, index: 0x0610, data: vec![0x00] },
            Request::ControlIn { value: 0x34, index: 0x0600, len: 3 },
        ]
    );
}

#[test]
fn short_reads_are_errors() {
    let t = tuner(R82xxChip::R820T);
    let mut port = Exchange::new(vec![Reply::Sent(0)]);
    assert_eq!(
        t.read(&mut port, 0x00, 3),
        Err(Halt::Failed(RtlSdrError::Tuner(TunerError::I2cTransferFailed {
            operation: "read addr",
            got: 0,
            expected: 1,
        })))
    );
    let mut port = Exchange::new(vec![Reply::Sent(1), Reply::Received(vec![1, 2])]);
    assert_eq!(
        t.read(&mut port, 0x00, 3),
        Err(Halt::Failed(RtlSdrError::Tuner(TunerError::I2cTransferFailed {
            operation: "read data",
            got: 2,
            expected: 3,
        })))
    );
}

#[test]
fn init_loads_every_register() {
    let mut t = tuner(R82xxChip::R820T);
    let mut bench = Bench::new();
    bench.run(&mut t, |t, port| t.init(port)).expect("the tuner initialises");
    assert_eq!(bench.messages[0], [&[0x05], &R82XX_INIT_ARRAY[..7]].concat());
    assert!(t.init_done);
    assert_eq!(t.int_freq, 3_570_000);
    assert_eq!(t.fil_cal_code, 7);
    assert_eq!(t.input, 0);
    bench.assert_shadow_true(&t);
    assert_eq!(bench.regs[0x0a], 0xd7);
    assert_eq!(bench.regs[0x13], 0x31);
}

#[test]
fn unusable_calibration_is_repeated_once() {
    let mut t = tuner(R82xxChip::R820T);
    let mut bench = Bench::new();
    // Each calibration reads the status three times: fine tuning, lock, code.
    bench.status = vec![
        [0x69, 0, 0x40, 0, 0x20],
        [0x69, 0, 0x40, 0, 0x20],
        [0x69, 0, 0x40, 0, 0x2f],
        [0x69, 0, 0x40, 0, 0x2f],
        [0x69, 0, 0x40, 0, 0x2f],
        [0x69, 0, 0x40, 0, 0x2f],
    ];
    bench.run(&mut t, |t, port| t.init(port)).expect("the tuner initialises");
    assert_eq!(bench.reads, 6);
    assert_eq!(t.fil_cal_code, 0);
}

#[test]
fn calibration_without_lock_says_so() {
    let mut t = tuner(R82xxChip::R820T);
    let mut bench = Bench::new();
    bench.status = vec![[0x69, 0, 0x00, 0, 0x20]];
    let r = bench.run(&mut t, |t, port| t.init(port));
    match r {
        Err(RtlSdrError::Tuner(TunerError::Context { context, source })) => {
            assert_eq!(context, "filter calibration");
            assert_eq!(
                *source,
                RtlSdrError::Tuner(TunerError::PllNotLocked { freq_hz: 56_000_000 })
            );
        }
        other => panic!("{other:?}"),
    }
    assert!(!t.init_done);
}

#[test]
fn predetection_makes_no_difference() {
    let (plain, bench) = ready(R82xxChip::R820T);
    let mut t = tuner(R82xxChip::R820T);
    t.use_predetect = true;
    let mut other = Bench::new();
    other.run(&mut t, |t, port| t.init(port)).expect("the tuner initialises");
    assert_eq!(plain.regs, t.regs);
    assert_eq!(&bench.regs[5..32], &other.regs[5..32]);
}

#[test]
fn pll_is_programmed_to_the_nearest_word() {
    let (mut t, mut bench) = ready(R82xxChip::R820T);
    bench.run(&mut t, |t, port| t.set_pll(port, 103_570_000)).expect("the PLL locks");
    // Divider 32, word 3770869: 57 and 35317 / 65536.
    assert_eq!(bench.regs[0x10] & 0xe0, 4 << 5);
    assert_eq!(bench.regs[0x14], 11);
    assert_eq!(bench.regs[0x15], 0xf5);
    assert_eq!(bench.regs[0x16], 0x89);
    assert_eq!(bench.regs[0x12] & 0x08, 0);
    let nint = 13 + 4 * u64::from(bench.regs[0x14] % 64) + u64::from(bench.regs[0x14] / 64);
    let word =
        65536 * nint + 256 * u64::from(bench.regs[0x16]) + u64::from(bench.regs[0x15]);
    let wanted = 103_570_000u64 * 32 * 65536;
    assert!((2 * 28_800_000 * word).abs_diff(wanted) <= 28_800_000);
    bench.assert_shadow_true(&t);
}

#[test]
fn pll_without_fraction_powers_the_modulator_down() {
    let (mut t, mut bench) = ready(R82xxChip::R820T);
    // 28.8 MHz * 2 * 57 / 32
    bench.run(&mut t, |t, port| t.set_pll(port, 102_600_000)).expect("the PLL locks");
    assert_eq!(bench.regs[0x12] & 0x08, 0x08);
    assert_eq!((bench.regs[0x15], bench.regs[0x16]), (0, 0));
}

#[test]
fn fine_tuning_moves_the_divider() {
    for (status, number) in [(0x10u8, 5u8), (0x20, 4), (0x30, 3)] {
        let (mut t, mut bench) = ready(R82xxChip::R820T);
        bench.status = vec![[0x69, 0, 0x40, 0, status]];
        bench.run(&mut t, |t, port| t.set_pll(port, 103_570_000)).expect("the PLL locks");
        assert_eq!(bench.regs[0x10] >> 5, number);
    }
    let (mut t, mut bench) = ready(R82xxChip::R828D);
    bench.status = vec![[0x69, 0, 0x40, 0, 0x20]];
    bench.run(&mut t, |t, port| t.set_pll(port, 103_570_000)).expect("the PLL locks");
    assert_eq!(bench.regs[0x10] >> 5, 3);
}

#[test]
fn second_look_raises_the_vco_current() {
    let (mut t, mut bench) = ready(R82xxChip::R820T);
    bench.status = vec![
        [0x69, 0, 0x00, 0, 0x20],
        [0x69, 0, 0x00, 0, 0x20],
        [0x69, 0, 0x40, 0, 0x20],
    ];
    bench.run(&mut t, |t, port| t.set_pll(port, 103_570_000)).expect("the PLL locks at last");
    assert_eq!(bench.regs[0x12] & 0xe0, 0x60);
    assert_eq!(bench.regs[0x1a] & 0x0c, 0x08);
}

#[test]
fn unreachable_frequencies_are_refused() {
    let failed = |freq_hz: u32, reason: &'static str| {
        Err(RtlSdrError::Tuner(TunerError::PllProgrammingFailed {
            backend: "R82xx",
            freq_hz,
            reason,
        }))
    };
    let (mut t, mut bench) = ready(R82xxChip::R820T);
    for freq in [27_656_000, 1_770_000_000, u32::MAX] {
        assert_eq!(
            bench.run(&mut t, |t, port| t.set_pll(port, freq)),
            failed(freq, "no valid VCO divider")
        );
    }
    t.set_xtal(200_000_000);
    assert_eq!(
        bench.run(&mut t, |t, port| t.set_pll(port, 100_000_000)),
        failed(100_000_000, "PLL nint below 13 (frequency too low at this divider)")
    );
    t.set_xtal(10_000_000);
    assert_eq!(
        bench.run(&mut t, |t, port| t.set_pll(port, 100_000_000)),
        failed(100_000_000, "PLL nint above max (frequency too high at this divider)")
    );
    t.set_xtal(0);
    bench.messages.clear();
    assert_eq!(
        bench.run(&mut t, |t, port| t.set_pll(port, 100_000_000)),
        Err(RtlSdrError::Tuner(TunerError::XtalIsZero))
    );
    assert!(bench.messages.is_empty());
    t.set_xtal(28_800_000);
    bench.status = vec![[0x69, 0, 0x00, 0, 0x20]];
    assert_eq!(
        bench.run(&mut t, |t, port| t.set_pll(port, 100_000_000)),
        Err(RtlSdrError::Tuner(TunerError::PllNotLocked { freq_hz: 100_000_000 }))
    );
}

#[test]
fn frequency_sets_mux_and_pll() {
    let (mut t, mut bench) = ready(R82xxChip::R820T);
    bench.run(&mut t, |t, port| t.set_freq(port, 100_000_000)).expect("the tuner tunes");
    // 103.57 MHz lies in the range from 100 MHz on.
    assert_eq!(bench.regs[0x17] & 0x08, 0x00);
    assert_eq!(bench.regs[0x1a] & 0xc3, 0x02);
    assert_eq!(bench.regs[0x1b], 0x34);
    assert_eq!(bench.regs[0x14], 11);
    bench.assert_shadow_true(&t);
}

#[test]
fn r828d_switches_its_input_at_345_mhz() {
    let (mut t, mut bench) = ready(R82xxChip::R828D);
    bench.status = vec![[0x69, 0, 0x40, 0, 0x17]];
    bench.run(&mut t, |t, port| t.set_freq(port, 100_000_000)).expect("the tuner tunes");
    assert_eq!((t.input, bench.regs[0x05] & 0x60), (0x60, 0x60));
    bench.run(&mut t, |t, port| t.set_freq(port, 345_000_001)).expect("the tuner tunes");
    assert_eq!((t.input, bench.regs[0x05] & 0x60), (0x00, 0x00));
}

#[test]
fn blog_v4_switches_bands() {
    let (mut t, mut bench) = ready(R82xxChip::R828D);
    bench.status = vec![[0x69, 0, 0x40, 0, 0x17]];
    t.set_blog_v4(true);
    bench.run(&mut t, |t, port| t.set_freq(port, 7_000_000)).expect("the tuner tunes");
    assert_eq!(t.input, 1);
    assert_eq!(bench.regs[0x06] & 0x08, 0x08);
    assert_eq!(bench.regs[0x05] & 0x60, 0x20);
    assert_eq!(bench.gpo & 0x20, 0x00);
    assert_eq!(bench.regs[0x17] & 0x08, 0x08);
    bench.run(&mut t, |t, port| t.set_freq(port, 100_000_000)).expect("the tuner tunes");
    assert_eq!(t.input, 2);
    assert_eq!(bench.regs[0x06] & 0x08, 0x00);
    assert_eq!(bench.regs[0x05] & 0x60, 0x60);
    assert_eq!(bench.gpo & 0x20, 0x20);
    assert_eq!(bench.regs[0x17] & 0x08, 0x00);
    bench.run(&mut t, |t, port| t.set_freq(port, 433_920_000)).expect("the tuner tunes");
    assert_eq!(t.input, 3);
    assert_eq!(bench.regs[0x05] & 0x60, 0x00);
    bench.assert_shadow_true(&t);
}

#[test]
fn bandwidth_chooses_filters_and_intermediate_frequency() {
    let plan = |bw| {
        let p = plan_band(bw);
        (p.reg_0a, p.reg_0b, p.int_freq)
    };
    assert_eq!(plan(8_000_000), (0x10, 0x0b, 4_570_000));
    assert_eq!(plan(7_000_000), (0x10, 0x2a, 4_570_000));
    assert_eq!(plan(2_430_001), (0x10, 0x6b, 3_570_000));
    assert_eq!(plan(2_430_000), (0x00, 0x8f, 1_815_000));
    assert_eq!(plan(2_048_000), (0x00, 0xaf, 1_625_000));
    assert_eq!(plan(1_700_000), (0x00, 0xef, 1_450_000));
    assert_eq!(plan(300_000), (0x00, 0xe6, 2_125_000));
    assert_eq!(plan(-1), (0x00, 0xe6, 2_125_000));

    let (mut t, mut bench) = ready(R82xxChip::R820T);
    let r = bench.run(&mut t, |t, port| t.set_bw(port, 2_048_000, 2_048_000));
    assert_eq!(r, Ok(1_625_000));
    assert_eq!(t.int_freq, 1_625_000);
    assert_eq!(bench.regs[0x0a] & 0x10, 0x00);
    assert_eq!(bench.regs[0x0b] & 0xef, 0xaf);
}

#[test]
fn gain_takes_the_fewest_steps() {
    assert_eq!(find_gain_rung(-10), 0);
    assert_eq!(find_gain_rung(0), 0);
    assert_eq!(find_gain_rung(1), 1);
    assert_eq!(find_gain_rung(9), 1);
    assert_eq!(find_gain_rung(10), 2);
    assert_eq!(find_gain_rung(14), 2);
    assert_eq!(find_gain_rung(15), 3);
    assert_eq!(find_gain_rung(496), 29);
    assert_eq!(find_gain_rung(100_000), 29);
    for gain in 0..500 {
        assert!(find_gain_rung(gain) <= find_gain_rung(gain + 1));
    }
}

#[test]
fn gain_goes_to_lna_and_mixer() {
    let (mut t, mut bench) = ready(R82xxChip::R820T);
    bench.run(&mut t, |t, port| t.set_gain(port, 1000)).expect("the gain is set");
    assert_eq!(bench.regs[0x05] & 0x1f, 0x1f);
    assert_eq!(bench.regs[0x07] & 0x1f, 0x0e);
    assert_eq!(bench.regs[0x0c] & 0x9f, 0x08);
    bench.run(&mut t, |t, port| t.set_gain_mode(port, false)).expect("the mode is set");
    assert_eq!(bench.regs[0x05] & 0x10, 0x00);
    assert_eq!(bench.regs[0x07] & 0x10, 0x10);
    assert_eq!(bench.regs[0x0c] & 0x9f, 0x0b);
    bench.run(&mut t, |t, port| t.set_gain_mode(port, true)).expect("the mode is set");
    assert_eq!(bench.regs[0x05] & 0x10, 0x10);
    bench.messages.clear();
    bench.run(&mut t, |t, port| t.set_if_gain(port, 1, 60)).expect("nothing to do");
    assert!(bench.messages.is_empty());
}

#[test]
fn standby_is_for_initialised_tuners() {
    let mut t = tuner(R82xxChip::R820T);
    let mut bench = Bench::new();
    bench.run(&mut t, |t, port| t.standby(port)).expect("nothing to do");
    assert!(bench.messages.is_empty());
    let (mut t, mut bench) = ready(R82xxChip::R820T);
    bench.run(&mut t, |t, port| t.exit(port)).expect("the tuner sleeps");
    assert_eq!(bench.regs[0x06], 0xb1);
    assert_eq!(bench.regs[0x19], 0x0c);
    bench.assert_shadow_true(&t);
}

#[test]
fn lost_tuner_is_reported() {
    let mut t = tuner(R82xxChip::R820T);
    let mut port = Exchange::new(vec![Reply::Failed(UsbError::NoDevice)]);
    assert_eq!(
        t.init(&mut port),
        Err(Halt::Failed(RtlSdrError::Usb(UsbError::NoDevice)))
    );
}

#[test]
fn usual_crystal_reaches_every_divided_frequency() {
    let (t, _) = ready(R82xxChip::R820T);
    let mut freq = 27_656_500u32;
    while freq < 1_769_999_500 {
        let (mut t, mut bench) = (t.clone(), Bench::new());
        let r = bench.run(&mut t, |t, port| t.set_pll(port, freq));
        assert_eq!(r, Ok(()), "at {freq} Hz");
        freq += 12_345_678;
    }
}

#[test]
fn gain_is_exceeded_by_less_than_4_db() {
    let mut ladder = vec![0];
    for i in 1..16 {
        ladder.push(ladder[ladder.len() - 1] + R82XX_LNA_GAIN_STEPS[i]);
        if i < 15 {
            ladder.push(ladder[ladder.len() - 1] + R82XX_MIXER_GAIN_STEPS[i]);
        }
    }
    assert_eq!(ladder.len(), 30);
    assert_eq!(ladder[29], 496);
    for gain in 1..=496 {
        let total = ladder[usize::from(find_gain_rung(gain))];
        assert!(gain <= total && total < gain + 40);
    }
}
