use std::sync::atomic::{AtomicBool, Ordering};
use std::sync::Arc;

use librtlsdr_rs::device::reader::{acquired, ReaderBusyGuard};
use librtlsdr_rs::device::streaming::{
    bulk_timeout, checked_loop_length, effective_buffer_size, is_loss, translate_bulk_result,
    Filled, LoopAction, LoopEvent, ReadLoop, ReadSession,
};
use librtlsdr_rs::device::RtlSdrDevice;
use librtlsdr_rs::error::{RtlSdrError, UsbError};
use librtlsdr_rs::reg::TunerType;
use librtlsdr_rs::tuner::r82xx::R82xxPriv;

#[test]
fn busy_guard_first_acquire_succeeds_second_returns_device_busy() {
    let flag = Arc::new(AtomicBool::new(false));
    let _guard1 = ReaderBusyGuard::try_acquire(Arc::clone(&flag))
        .expect("first acquire on a free flag must succeed");
    let result = ReaderBusyGuard::try_acquire(Arc::clone(&flag));
    assert!(
        matches!(result, Err(RtlSdrError::DeviceBusy)),
        "expected DeviceBusy on contended acquire, got {result:?}",
    );
}

#[test]
fn busy_guard_drop_releases_flag() {
    let flag = Arc::new(AtomicBool::new(false));
    {
        let _guard = ReaderBusyGuard::try_acquire(Arc::clone(&flag))
            .expect("first acquire must succeed");
        assert!(
            flag.load(Ordering::Acquire),
            "flag must be set while guard is alive",
        );
    }
    assert!(
        !flag.load(Ordering::Acquire),
        "flag must be cleared after guard drop",
    );
    let _guard2 = ReaderBusyGuard::try_acquire(Arc::clone(&flag))
        .expect("acquire after drop must succeed");
}

#[test]
fn translate_no_device_sets_dev_lost_flag() {
    let flag = AtomicBool::new(false);
    let result = translate_bulk_result(Err(UsbError::NoDevice), &flag);
    assert!(matches!(result, Err(RtlSdrError::DeviceLost)));
    assert!(flag.load(Ordering::Acquire), "dev_lost should be set");
}

#[test]
fn translate_ok_does_not_touch_dev_lost_flag() {
    let flag = AtomicBool::new(false);
    let result = translate_bulk_result(Ok(42), &flag);
    assert!(matches!(result, Ok(42)));
    assert!(!flag.load(Ordering::Acquire));
}

#[test]
fn translate_pipe_and_io_treated_as_disconnect() {
    for kind in [UsbError::Pipe, UsbError::Io] {
        let flag = AtomicBool::new(false);
        let result = translate_bulk_result(Err(kind), &flag);
        assert!(
            matches!(result, Err(RtlSdrError::DeviceLost)),
            "{kind:?} should normalize to DeviceLost"
        );
        assert!(
            flag.load(Ordering::Acquire),
            "dev_lost should be set for {kind:?}"
        );
    }
}

#[test]
fn translate_other_errors_do_not_touch_dev_lost_flag() {
    for kind in [UsbError::Timeout, UsbError::Overflow] {
        let flag = AtomicBool::new(false);
        let _ = translate_bulk_result(Err(kind), &flag);
        assert!(
            !flag.load(Ordering::Acquire),
            "dev_lost should not fire for {kind:?}"
        );
    }
}

#[test]
fn translate_no_device_is_idempotent() {
    let flag = AtomicBool::new(true);
    let result = translate_bulk_result(Err(UsbError::NoDevice), &flag);
    assert!(matches!(result, Err(RtlSdrError::DeviceLost)));
    assert!(flag.load(Ordering::Acquire));
}

#[test]
fn exchanged_flag_decides() {
    assert_eq!(acquired(Ok(false)), Ok(()));
    assert_eq!(acquired(Err(true)), Err(RtlSdrError::DeviceBusy));
}

#[test]
fn loss_and_disconnection_agree() {
    for kind in [
        UsbError::Io,
        UsbError::InvalidParam,
        UsbError::Access,
        UsbError::NoDevice,
        UsbError::NotFound,
        UsbError::Busy,
        UsbError::Timeout,
        UsbError::Overflow,
        UsbError::Pipe,
        UsbError::Interrupted,
        UsbError::NoMem,
        UsbError::NotSupported,
        UsbError::BadDescriptor,
        UsbError::Other,
    ] {
        let flag = AtomicBool::new(false);
        let seen = translate_bulk_result(Err(kind), &flag).expect_err("the read failed");
        assert_eq!(seen.is_disconnected(), flag.load(Ordering::Acquire));
        assert_eq!(seen.is_disconnected(), is_loss(&Err(kind)));
    }
}

fn bytes(n: usize, size: usize) -> Filled {
    Filled { buf: (0..size).map(|i| i as u8).collect(), result: Ok(n) }
}

fn failure(e: UsbError) -> Filled {
    Filled { buf: vec![0; 8], result: Err(e) }
}

#[test]
fn zero_selects_the_default_buffer() {
    assert_eq!(effective_buffer_size(0), 262_144);
    assert_eq!(effective_buffer_size(512), 512);
    let flag = Arc::new(AtomicBool::new(false));
    let lost = AtomicBool::new(false);
    let mut s = ReadSession::start(flag, 0);
    s.next(&lost, |size| {
        assert_eq!(size, 262_144);
        bytes(1, 1)
    });
}

#[test]
fn iteration_gives_what_was_read() {
    let flag = Arc::new(AtomicBool::new(false));
    let lost = AtomicBool::new(false);
    let mut s = ReadSession::start(Arc::clone(&flag), 8);
    assert_eq!(s.next(&lost, |size| bytes(3, size)), Some(Ok(vec![0, 1, 2])));
    assert_eq!(s.next(&lost, |size| bytes(8, size)), Some(Ok((0..8).collect())));
    assert!(flag.load(Ordering::Acquire));
    drop(s);
    assert!(!flag.load(Ordering::Acquire));
}

#[test]
fn iteration_ends_with_an_empty_read() {
    let lost = AtomicBool::new(false);
    let mut s = ReadSession::start(Arc::new(AtomicBool::new(false)), 8);
    assert_eq!(s.next(&lost, |size| bytes(0, size)), None);
    assert_eq!(s.next(&lost, |_| panic!("no read after the end")), None);
}

#[test]
fn iteration_ends_with_an_error() {
    let lost = AtomicBool::new(false);
    let mut s = ReadSession::start(Arc::new(AtomicBool::new(false)), 8);
    assert_eq!(
        s.next(&lost, |_| failure(UsbError::Timeout)),
        Some(Err(RtlSdrError::Usb(UsbError::Timeout)))
    );
    assert!(!lost.load(Ordering::Acquire));
    assert_eq!(s.next(&lost, |_| panic!("no read after an error")), None);
    let mut s = ReadSession::start(Arc::new(AtomicBool::new(false)), 8);
    assert_eq!(
        s.next(&lost, |_| failure(UsbError::Pipe)),
        Some(Err(RtlSdrError::DeviceLost))
    );
    assert!(lost.load(Ordering::Acquire));
}

#[test]
fn second_iteration_says_that_the_device_is_busy() {
    let dev: RtlSdrDevice<R82xxPriv> =
        RtlSdrDevice::new(None, TunerType::Unknown, 28_800_000, 28_800_000);
    let mut first = dev.iter_samples(8);
    assert_eq!(first.next(|size| bytes(2, size)), Some(Ok(vec![0, 1])));
    let mut second = dev.reader().iter_samples(8);
    assert_eq!(
        second.next(|_| panic!("no read while busy")),
        Some(Err(RtlSdrError::DeviceBusy))
    );
    assert_eq!(second.next(|_| panic!("no read while busy")), None);
    assert_eq!(
        dev.read_sync(|_| panic!("no read while busy")),
        Err(RtlSdrError::DeviceBusy)
    );
    assert_eq!(
        dev.reader().read_sync(|_| panic!("no read while busy")),
        Err(RtlSdrError::DeviceBusy)
    );
    assert_eq!(dev.read_async_blocking(0).err(), Some(RtlSdrError::DeviceBusy));
    drop(first);
    assert_eq!(dev.read_sync(|_| Ok(512)), Ok(512));
}

#[test]
fn the_right_to_read_is_held_during_a_read() {
    let dev: RtlSdrDevice<R82xxPriv> =
        RtlSdrDevice::new(None, TunerType::Unknown, 28_800_000, 28_800_000);
    let reader = dev.reader();
    let r = dev.read_sync(|_| {
        assert_eq!(reader.read_sync(|_| Ok(1)), Err(RtlSdrError::DeviceBusy));
        Err(UsbError::NoDevice)
    });
    assert_eq!(r, Err(RtlSdrError::DeviceLost));
    assert!(dev.dev_lost.load(Ordering::Acquire));
    assert!(!dev.reader_busy.load(Ordering::Acquire));
}

#[test]
fn holding_session_keeps_its_guard() {
    let flag = Arc::new(AtomicBool::new(false));
    let guard = ReaderBusyGuard::try_acquire(Arc::clone(&flag)).expect("the flag is free");
    let s = ReadSession::holding(guard, 8);
    assert!(flag.load(Ordering::Acquire));
    drop(s);
    assert!(!flag.load(Ordering::Acquire));
}

#[test]
fn stream_takes_the_right_to_read_or_gives_the_reader_back() {
    let dev: RtlSdrDevice<R82xxPriv> =
        RtlSdrDevice::new(None, TunerType::Unknown, 28_800_000, 28_800_000);
    let lost = AtomicBool::new(false);
    let Ok((mut session, reader)) = dev.reader().begin(8) else {
        panic!("nobody else reads");
    };
    assert!(Arc::ptr_eq(&reader.busy, &dev.reader_busy));
    assert_eq!(session.next(&lost, |size| bytes(2, size)), Some(Ok(vec![0, 1])));
    let Err(back) = reader.begin(8) else {
        panic!("the stream reads");
    };
    assert_eq!(back.0, RtlSdrError::DeviceBusy);
    drop(session);
    assert!(back.1.begin(8).is_ok());
}

#[test]
fn loop_of_a_guard_depends_on_the_length_alone() {
    let flag = Arc::new(AtomicBool::new(false));
    let take = || ReaderBusyGuard::try_acquire(Arc::clone(&flag)).expect("the flag is free");
    let l = ReadLoop::holding(take(), 1024).expect("a good length");
    assert_eq!(l.buf_len(), 1024);
    assert!(flag.load(Ordering::Acquire));
    drop(l);
    assert_eq!(
        ReadLoop::holding(take(), 1000).err(),
        Some(RtlSdrError::InvalidParameter(
            "buf_len must be a multiple of 512 and <= 16777216, got 1000".to_string()
        ))
    );
    assert!(!flag.load(Ordering::Acquire));
}

#[test]
fn refused_loop_gives_the_right_to_read_up() {
    let dev: RtlSdrDevice<R82xxPriv> =
        RtlSdrDevice::new(None, TunerType::Unknown, 28_800_000, 28_800_000);
    assert!(matches!(
        dev.read_async_blocking(513).err(),
        Some(RtlSdrError::InvalidParameter(_))
    ));
    assert!(!dev.reader_busy.load(Ordering::Acquire));
    let l = dev.read_async_blocking(0).expect("nobody else reads");
    assert_eq!(l.buf_len(), 262_144);
    assert!(dev.reader_busy.load(Ordering::Acquire));
}

#[test]
fn loop_length_is_checked() {
    assert_eq!(checked_loop_length(0), Ok(262_144));
    assert_eq!(checked_loop_length(512), Ok(512));
    assert_eq!(checked_loop_length(16_777_216), Ok(16_777_216));
    for bad in [1, 513, 16_777_728] {
        assert_eq!(
            checked_loop_length(bad),
            Err(RtlSdrError::InvalidParameter(format!(
                "buf_len must be a multiple of 512 and <= 16777216, got {bad}"
            )))
        );
    }
}

#[test]
fn hundred_empty_reads_end_the_loop() {
    let flag = Arc::new(AtomicBool::new(false));
    let lost = AtomicBool::new(false);
    let mut l = ReadLoop::start(flag, 512).expect("nobody else reads");
    assert_eq!(l.buf_len(), 512);
    for _ in 0..99 {
        assert_eq!(l.step(LoopEvent::Read(Ok(0)), &lost), LoopAction::Again);
        assert_eq!(l.step(LoopEvent::Read(Err(UsbError::Timeout)), &lost), LoopAction::Again);
    }
    assert_eq!(l.step(LoopEvent::Read(Ok(512)), &lost), LoopAction::Deliver(512));
    for _ in 0..99 {
        assert_eq!(l.step(LoopEvent::Read(Ok(0)), &lost), LoopAction::Again);
    }
    assert_eq!(l.step(LoopEvent::Read(Ok(0)), &lost), LoopAction::Stop(Ok(())));
}

#[test]
fn loop_ends_with_an_error() {
    let lost = AtomicBool::new(false);
    let mut l = ReadLoop::start(Arc::new(AtomicBool::new(false)), 0).expect("nobody else reads");
    assert_eq!(
        l.step(LoopEvent::Read(Err(UsbError::Overflow)), &lost),
        LoopAction::Stop(Err(RtlSdrError::Usb(UsbError::Overflow)))
    );
    assert!(!lost.load(Ordering::Acquire));
    assert_eq!(
        l.step(LoopEvent::Read(Err(UsbError::Io)), &lost),
        LoopAction::Stop(Err(RtlSdrError::DeviceLost))
    );
    assert!(lost.load(Ordering::Acquire));
}

#[test]
fn cancelling_ends_the_loop() {
    let lost = AtomicBool::new(false);
    let mut l = ReadLoop::start(Arc::new(AtomicBool::new(false)), 0).expect("nobody else reads");
    assert_eq!(l.step(LoopEvent::Read(Ok(0)), &lost), LoopAction::Again);
    assert_eq!(l.step(LoopEvent::Cancelled, &lost), LoopAction::Stop(Ok(())));
    assert!(!lost.load(Ordering::Acquire));
}

#[test]
fn reads_have_a_timeout() {
    assert_eq!(bulk_timeout(), 5000);
}
