//! Register blocks and addresses of the RTL2832U.

use vstd::prelude::*;

verus! {

/// A register block of the RTL2832U, as named in a control transfer.
#[derive(Clone, Copy, Debug, PartialEq, Eq, Structural)]
pub enum Block {
    Demod,
    Usb,
    Sys,
    Tuner,
    Rom,
    Ir,
    Iic,
}

impl Block {
    /// The number that stands for the block in a transfer's index field.
    pub open spec fn number(self) -> u16 {
        match self {
            Block::Demod => 0,
            Block::Usb => 1,
            Block::Sys => 2,
            Block::Tuner => 3,
            Block::Rom => 4,
            Block::Ir => 5,
            Block::Iic => 6,
        }
    }

    /// Returns the number that stands for the block in a transfer's index field.
    pub fn code(self) -> (r: u16)
        ensures
            r == self.number(),
            r <= 6,
    {
        match self {
            Block::Demod => 0,
            Block::Usb => 1,
            Block::Sys => 2,
            Block::Tuner => 3,
            Block::Rom => 4,
            Block::Ir => 5,
            Block::Iic => 6,
        }
    }
}

/// The tuner IC found on a dongle.
#[derive(Clone, Copy, Debug, PartialEq, Eq, Structural)]
pub enum TunerType {
    Unknown,
    E4000,
    Fc0012,
    Fc0013,
    Fc2580,
    R820T,
    R828D,
}

impl TunerType {
    /// Whether the tuner is one of the Rafael Micro R82xx family.
    pub open spec fn is_r82xx_spec(self) -> bool {
        self == TunerType::R820T || self == TunerType::R828D
    }

    /// Returns whether the tuner is one of the Rafael Micro R82xx family.
    pub fn is_r82xx(self) -> (r: bool)
        ensures
            r == self.is_r82xx_spec(),
    {
        self == TunerType::R820T || self == TunerType::R828D
    }
}

// System registers.
pub const DEMOD_CTL: u16 = 0x3000;

pub const GPO: u16 = 0x3001;

pub const GPOE: u16 = 0x3003;

pub const GPD: u16 = 0x3004;

pub const DEMOD_CTL_1: u16 = 0x300b;

// USB registers.
pub const USB_SYSCTL: u16 = 0x2000;

pub const USB_EPA_CTL: u16 = 0x2148;

pub const USB_EPA_MAXPKT: u16 = 0x2158;

} // verus!
