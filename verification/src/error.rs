//! Error types of the driver.

use std::sync::Arc;

use vstd::prelude::*;

use crate::reg::Block;

verus! {

/// What can go wrong in a USB transfer.
#[derive(Clone, Copy, Debug, PartialEq, Eq, Structural)]
pub enum UsbError {
    /// Input/output error.
    Io,
    /// Invalid parameter.
    InvalidParam,
    /// Access denied.
    Access,
    /// No such device (it may have been disconnected).
    NoDevice,
    /// Entity not found.
    NotFound,
    /// Resource busy.
    Busy,
    /// Operation timed out.
    Timeout,
    /// Overflow.
    Overflow,
    /// Pipe error.
    Pipe,
    /// System call interrupted.
    Interrupted,
    /// Insufficient memory.
    NoMem,
    /// Operation not supported.
    NotSupported,
    /// The device returned a malformed descriptor.
    BadDescriptor,
    /// Other error.
    Other,
}

/// Errors of a tuner.
#[derive(Debug, Clone, PartialEq, Eq)]
#[non_exhaustive]
pub enum TunerError {
    /// The PLL did not lock on the frequency.
    PllNotLocked { freq_hz: u32 },
    /// The crystal frequency is zero.
    XtalIsZero,
    /// No setting of the PLL reaches the frequency.
    PllProgrammingFailed { backend: &'static str, freq_hz: u32, reason: &'static str },
    /// An I2C transfer moved another number of bytes than it should have.
    I2cTransferFailed { operation: &'static str, got: usize, expected: usize },
    /// A masked write named a register that has no shadow.
    ShadowCacheMiss { reg: u8 },
    /// The tuner has no filter for the bandwidth mode.
    UnsupportedFilterBandwidth { mode: u32 },
    /// The tuner has no such gain.
    InvalidGain { what: &'static str, detail: String },
    /// Another error, with what was going on when it came.
    Context { context: &'static str, source: Arc<RtlSdrError> },
}

/// Errors of the driver.
#[derive(Debug, Clone, PartialEq, Eq)]
#[non_exhaustive]
pub enum RtlSdrError {
    /// USB communication error.
    Usb(UsbError),
    /// Device not found at the specified index.
    DeviceNotFound { index: u32 },
    /// No supported tuner detected on the device.
    NoTuner,
    /// Tuner operation failed.
    Tuner(TunerError),
    /// Invalid sample rate.
    InvalidSampleRate { rate_hz: u32 },
    /// Invalid parameter.
    InvalidParameter(String),
    /// Device is busy (another read is in progress).
    DeviceBusy,
    /// Device was lost (USB disconnect).
    DeviceLost,
    /// Register write/read failed.
    RegisterAccess { block: Block, address: u16 },
}

/// What a [`TunerError`] says, with its texts as sequences of characters.
pub enum TunerFault {
    PllNotLocked { freq_hz: u32 },
    XtalIsZero,
    PllProgrammingFailed { backend: Seq<char>, freq_hz: u32, reason: Seq<char> },
    I2cTransferFailed { operation: Seq<char>, got: nat, expected: nat },
    ShadowCacheMiss { reg: u8 },
    UnsupportedFilterBandwidth { mode: u32 },
    InvalidGain { what: Seq<char>, detail: Seq<char> },
    Context { context: Seq<char>, source: Box<Fault> },
}

/// What an [`RtlSdrError`] says, with its texts as sequences of characters.
pub enum Fault {
    Usb(UsbError),
    DeviceNotFound { index: u32 },
    NoTuner,
    Tuner(TunerFault),
    InvalidSampleRate { rate_hz: u32 },
    InvalidParameter(Seq<char>),
    DeviceBusy,
    DeviceLost,
    RegisterAccess { block: Block, address: u16 },
}

impl TunerError {
    pub open spec fn view(self) -> TunerFault
        decreases self,
    {
        match self {
            TunerError::PllNotLocked { freq_hz } => TunerFault::PllNotLocked { freq_hz },
            TunerError::XtalIsZero => TunerFault::XtalIsZero,
            TunerError::PllProgrammingFailed { backend, freq_hz, reason } => {
                TunerFault::PllProgrammingFailed { backend: backend@, freq_hz, reason: reason@ }
            },
            TunerError::I2cTransferFailed { operation, got, expected } => {
                TunerFault::I2cTransferFailed {
                    operation: operation@,
                    got: got as nat,
                    expected: expected as nat,
                }
            },
            TunerError::ShadowCacheMiss { reg } => TunerFault::ShadowCacheMiss { reg },
            TunerError::UnsupportedFilterBandwidth { mode } => {
                TunerFault::UnsupportedFilterBandwidth { mode }
            },
            TunerError::InvalidGain { what, detail } => {
                TunerFault::InvalidGain { what: what@, detail: detail@ }
            },
            TunerError::Context { context, source } => {
                TunerFault::Context { context: context@, source: Box::new(source.view()) }
            },
        }
    }
}

/// Whether an error says that the dongle was disconnected: the driver saw it go, or
/// the transfer found no device.
pub open spec fn is_disconnection(e: Fault) -> bool {
    e == Fault::DeviceLost || e == Fault::Usb(UsbError::NoDevice)
}

impl RtlSdrError {
    pub open spec fn view(self) -> Fault
        decreases self,
    {
        match self {
            RtlSdrError::Usb(e) => Fault::Usb(e),
            RtlSdrError::DeviceNotFound { index } => Fault::DeviceNotFound { index },
            RtlSdrError::NoTuner => Fault::NoTuner,
            RtlSdrError::Tuner(t) => Fault::Tuner(t.view()),
            RtlSdrError::InvalidSampleRate { rate_hz } => Fault::InvalidSampleRate { rate_hz },
            RtlSdrError::InvalidParameter(msg) => Fault::InvalidParameter(msg@),
            RtlSdrError::DeviceBusy => Fault::DeviceBusy,
            RtlSdrError::DeviceLost => Fault::DeviceLost,
            RtlSdrError::RegisterAccess { block, address } => {
                Fault::RegisterAccess { block, address }
            },
        }
    }

    /// Returns whether the error says that the dongle was disconnected.
    pub fn is_disconnected(&self) -> (r: bool)
        ensures
            r == is_disconnection(self@),
    {
        match self {
            RtlSdrError::DeviceLost => true,
            RtlSdrError::Usb(UsbError::NoDevice) => true,
            _ => false,
        }
    }

    /// Returns whether the error is a transfer that timed out.
    pub fn is_timeout(&self) -> (r: bool)
        ensures
            r == (self@ == Fault::Usb(UsbError::Timeout)),
    {
        match self {
            RtlSdrError::Usb(UsbError::Timeout) => true,
            _ => false,
        }
    }
}

} // verus!
