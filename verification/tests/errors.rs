use librtlsdr_rs::error::{RtlSdrError, TunerError, UsbError};
use librtlsdr_rs::reg::Block;

#[test]
fn is_disconnected_recognises_device_lost_and_no_device() {
    assert!(RtlSdrError::DeviceLost.is_disconnected());
    assert!(RtlSdrError::Usb(UsbError::NoDevice).is_disconnected());
}

#[test]
fn is_disconnected_returns_false_for_other_variants() {
    assert!(!RtlSdrError::DeviceBusy.is_disconnected());
    assert!(!RtlSdrError::Usb(UsbError::Timeout).is_disconnected());
    assert!(!RtlSdrError::NoTuner.is_disconnected());
    assert!(!RtlSdrError::DeviceNotFound { index: 0 }.is_disconnected());
    assert!(!RtlSdrError::Tuner(TunerError::InvalidGain {
        what: "gain",
        detail: "anything".to_string(),
    })
    .is_disconnected());
}

#[test]
fn is_timeout_recognises_only_usb_timeout() {
    assert!(RtlSdrError::Usb(UsbError::Timeout).is_timeout());
}

#[test]
fn is_timeout_returns_false_for_other_variants() {
    assert!(!RtlSdrError::DeviceLost.is_timeout());
    assert!(!RtlSdrError::DeviceBusy.is_timeout());
    assert!(!RtlSdrError::Usb(UsbError::NoDevice).is_timeout());
    assert!(!RtlSdrError::Usb(UsbError::Io).is_timeout());
    assert!(!RtlSdrError::RegisterAccess { block: Block::Sys, address: 0x3000 }.is_timeout());
}
