//! A driver for RTL2832U-based DVB-T dongles with Rafael Micro tuners.
//!
//! Everything that decides what is said to the dongle stands here, with its
//! contract: the register protocol, the tuner driver, the device controls, the
//! rules of the sample stream. The library itself touches no USB bus. An
//! operation runs against an [`exchange::Exchange`], which holds the answers
//! received so far and records the transfers asked for; when an answer is still
//! missing the operation stops and says so, the caller performs the transfer and
//! runs the operation again with one answer more.

pub mod access;
pub mod baseband;
pub mod constants;
pub mod device;
pub mod error;
pub mod exchange;
pub mod pins;
pub mod reg;
pub mod repeater;
pub mod text;
pub mod tuner;
pub mod usb;
pub mod wire;
