//! Tables of the R82XX tuners.

use vstd::prelude::*;

verus! {

/// First register that has a shadow.
pub const REG_SHADOW_START: u8 = 5;

/// Number of registers that have a shadow.
pub const NUM_REGS: usize = 30;

/// Number of registers that the initialisation loads.
pub const NUM_INIT_REGS: usize = 27;

/// Version that is written to the tuner.
pub const VER_NUM: u8 = 49;

/// Values of registers 0x05 to 0x1f after power-on initialisation.
pub const R82XX_INIT_ARRAY: [u8; 27] = [
    0x83, 0x32, 0x75, 0xc0, 0x40, 0xd6, 0x6c, 0xf5, 0x63, 0x75, 0x68, 0x6c, 0x83, 0x80, 0x00, 0x0f,
    0x00, 0xc0, 0x30, 0x48, 0xcc, 0x60, 0x00, 0x54, 0xae, 0x4a, 0xc0,
];

/// The tuner chips of the family.
#[derive(Clone, Copy, Debug, PartialEq, Eq, Structural)]
pub enum R82xxChip {
    R820T,
    R620D,
    R828D,
    R828,
    R828S,
    R820C,
}

/// Load capacitance of the crystal.
#[derive(Clone, Copy, Debug, PartialEq, Eq, Structural)]
pub enum XtalCapValue {
    LowCap30p,
    LowCap20p,
    LowCap10p,
    LowCap0p,
    HighCap0p,
}

/// Settings of the RF front end from `freq` MHz on.
#[derive(Clone, Copy, Debug, PartialEq, Eq, Structural)]
pub struct FreqRange {
    pub freq: u32,
    pub open_d: u8,
    pub rf_mux_ploy: u8,
    pub tf_c: u8,
    pub xtal_cap20p: u8,
    pub xtal_cap10p: u8,
    pub xtal_cap0p: u8,
}

/// Where each range of the RF front end starts, in MHz.
pub const FREQ_RANGE_STARTS: [u32; 21] = [
    0, 50, 55, 60, 65, 70, 75, 80, 90, 100, 110, 120, 140, 180, 220, 250, 280, 310, 450, 588, 650,
];

/// The settings of each range of the RF front end: open drain, RF mux and
/// polyphase mux, tracking filter, crystal load for 20, 10 and 0 pF.
pub const FREQ_RANGE_SETTINGS: [[u8; 6]; 21] = [
    [0x08, 0x02, 0xdf, 0x02, 0x01, 0x00],
    [0x08, 0x02, 0xbe, 0x02, 0x01, 0x00],
    [0x08, 0x02, 0x8b, 0x02, 0x01, 0x00],
    [0x08, 0x02, 0x7b, 0x02, 0x01, 0x00],
    [0x08, 0x02, 0x69, 0x02, 0x01, 0x00],
    [0x08, 0x02, 0x58, 0x02, 0x01, 0x00],
    [0x00, 0x02, 0x44, 0x02, 0x01, 0x00],
    [0x00, 0x02, 0x44, 0x02, 0x01, 0x00],
    [0x00, 0x02, 0x34, 0x01, 0x01, 0x00],
    [0x00, 0x02, 0x34, 0x01, 0x01, 0x00],
    [0x00, 0x02, 0x24, 0x01, 0x01, 0x00],
    [0x00, 0x02, 0x24, 0x01, 0x01, 0x00],
    [0x00, 0x02, 0x14, 0x01, 0x01, 0x00],
    [0x00, 0x02, 0x13, 0x00, 0x00, 0x00],
    [0x00, 0x02, 0x13, 0x00, 0x00, 0x00],
    [0x00, 0x02, 0x11, 0x00, 0x00, 0x00],
    [0x00, 0x02, 0x00, 0x00, 0x00, 0x00],
    [0x00, 0x41, 0x00, 0x00, 0x00, 0x00],
    [0x00, 0x41, 0x00, 0x00, 0x00, 0x00],
    [0x00, 0x40, 0x00, 0x00, 0x00, 0x00],
    [0x00, 0x40, 0x00, 0x00, 0x00, 0x00],
];

/// Bandwidths of the IF low-pass filter in Hz, widest first.
pub const IF_LOW_PASS_BW_TABLE: [i32; 10] = [
    1_700_000, 1_600_000, 1_550_000, 1_450_000, 1_200_000, 900_000, 700_000, 550_000, 450_000,
    350_000,
];

/// Bandwidth that the first high-pass filter adds, in Hz.
pub const FILT_HP_BW1: i32 = 350_000;

/// Bandwidth that the second high-pass filter adds, in Hz.
pub const FILT_HP_BW2: i32 = 380_000;

/// Gain that each step of the LNA adds, in tenths of dB.
pub const R82XX_LNA_GAIN_STEPS: [i32; 16] = [
    0, 9, 13, 40, 38, 13, 31, 22, 26, 31, 26, 14, 19, 5, 35, 13,
];

/// Gain that each step of the mixer adds, in tenths of dB.
pub const R82XX_MIXER_GAIN_STEPS: [i32; 16] = [
    0, 5, 10, 10, 19, 9, 10, 25, 17, 10, 8, 16, 13, 6, 3, -8,
];

/// Input bands of the Blog V4 dongle.
pub const HF: u8 = 1;

pub const VHF: u8 = 2;

pub const UHF: u8 = 3;

/// The settings of the range at position `i`.
pub open spec fn freq_range_at(i: int) -> FreqRange {
    FreqRange {
        freq: FREQ_RANGE_STARTS[i],
        open_d: FREQ_RANGE_SETTINGS[i][0],
        rf_mux_ploy: FREQ_RANGE_SETTINGS[i][1],
        tf_c: FREQ_RANGE_SETTINGS[i][2],
        xtal_cap20p: FREQ_RANGE_SETTINGS[i][3],
        xtal_cap10p: FREQ_RANGE_SETTINGS[i][4],
        xtal_cap0p: FREQ_RANGE_SETTINGS[i][5],
    }
}

/// Returns the settings of the range at position `i`.
pub fn freq_range(i: usize) -> (r: FreqRange)
    requires
        i < 21,
    ensures
        r == freq_range_at(i as int),
{
    FreqRange {
        freq: FREQ_RANGE_STARTS[i],
        open_d: FREQ_RANGE_SETTINGS[i][0],
        rf_mux_ploy: FREQ_RANGE_SETTINGS[i][1],
        tf_c: FREQ_RANGE_SETTINGS[i][2],
        xtal_cap20p: FREQ_RANGE_SETTINGS[i][3],
        xtal_cap10p: FREQ_RANGE_SETTINGS[i][4],
        xtal_cap0p: FREQ_RANGE_SETTINGS[i][5],
    }
}

/// `b` with its bits in the opposite order.
pub open spec fn reversed_bits(b: u8) -> u8 {
    ((b & 0x01) << 7) | ((b & 0x02) << 5) | ((b & 0x04) << 3) | ((b & 0x08) << 1) | ((b & 0x10)
        >> 1) | ((b & 0x20) >> 3) | ((b & 0x40) >> 5) | ((b & 0x80) >> 7)
}

/// Returns `b` with its bits in the opposite order.
pub fn bitrev(b: u8) -> (r: u8)
    ensures
        r == reversed_bits(b),
{
    ((b & 0x01) << 7) | ((b & 0x02) << 5) | ((b & 0x04) << 3) | ((b & 0x08) << 1) | ((b & 0x10)
        >> 1) | ((b & 0x20) >> 3) | ((b & 0x40) >> 5) | ((b & 0x80) >> 7)
}

/// Bit `i` of the reversed byte is bit `7 - i` of the byte, and reversing twice
/// gives the byte back.
pub proof fn bit_reversal(b: u8, i: u8)
    requires
        i < 8,
    ensures
        (reversed_bits(b) >> i) & 1 == (b >> ((7 - i) as u8)) & 1,
        reversed_bits(reversed_bits(b)) == b,
{
    assert((reversed_bits(b) >> i) & 1 == (b >> ((7 - i) as u8)) & 1) by (bit_vector)
        requires
            i < 8,
    ;
    assert(reversed_bits(reversed_bits(b)) == b) by (bit_vector);
}

} // verus!
