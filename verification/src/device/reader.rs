//! Who may read samples, and the handle of a reader.

use std::sync::atomic::{AtomicBool, Ordering};
use std::sync::Arc;

use vstd::prelude::*;

use crate::device::streaming::{
    begins, goes_to_next, loop_begins, marked, means_lost, modelled, opened, reads,
    translate_bulk_result, translated, Filled, ReadLoop, ReadSession, Session,
};
use crate::device::RtlSdrDevice;
use crate::error::{Fault, RtlSdrError, UsbError};
use crate::tuner::Tuner;

verus! {

/// `AtomicBool::store` with release ordering. It neither unwinds nor opens an
/// invariant; what the flag holds afterwards is not part of the contract, for
/// others may write it too.
#[verifier::external_body]
fn store_released(flag: &AtomicBool, val: bool)
    opens_invariants none
    no_unwind
{
    flag.store(val, Ordering::Release)
}

/// Whether `x` came of exchanging the flag's value: `true` for `false`, with acquire
/// ordering where that succeeds.
pub open spec fn tried(flag: Arc<AtomicBool>, x: Result<bool, bool>) -> bool {
    call_ensures(
        AtomicBool::compare_exchange,
        (&*flag, false, true, Ordering::Acquire, Ordering::Relaxed),
        x,
    )
}

/// Whether the flag was cleared for others to take.
pub closed spec fn released(flag: Arc<AtomicBool>) -> bool {
    call_ensures(store_released, (&*flag, false), ())
}

/// Whether the flag was made, and made clear.
pub open spec fn made_clear(flag: Arc<AtomicBool>) -> bool {
    call_ensures(AtomicBool::new, (false,), *flag)
}

/// Whether exchanging the flag's value succeeded.
pub open spec fn is_taken(flag: Arc<AtomicBool>) -> bool {
    exists|x: Result<bool, bool>| #[trigger] tried(flag, x) && taken(x) is Ok
}

/// Held while samples are read. The flag behind it was taken for it and is set as
/// long as the guard lives, so that two readers never share the stream.
#[derive(Debug)]
pub struct ReaderBusyGuard {
    flag: Arc<AtomicBool>,
}

/// What comes of taking the flag, out of what came of exchanging its value.
pub open spec fn taken(exchanged: Result<bool, bool>) -> Result<(), Fault> {
    match exchanged {
        Ok(_) => Ok(()),
        Err(_) => Err(Fault::DeviceBusy),
    }
}

/// Returns what came of taking the flag, out of what came of exchanging its value.
pub fn acquired(exchanged: Result<bool, bool>) -> (r: Result<(), RtlSdrError>)
    ensures
        modelled(r) == taken(exchanged),
{
    match exchanged {
        Ok(_) => Ok(()),
        Err(_) => Err(RtlSdrError::DeviceBusy),
    }
}

impl ReaderBusyGuard {
    /// The flag behind the guard.
    pub closed spec fn flag(&self) -> Arc<AtomicBool> {
        self.flag
    }

    /// A guard is there only where exchanging the flag's value succeeded.
    #[verifier::type_invariant]
    spec fn was_taken(self) -> bool {
        is_taken(self.flag)
    }

    /// Takes the flag, unless another guard holds it. The exchange of the flag's value
    /// decides.
    pub fn try_acquire(flag: Arc<AtomicBool>) -> (r: Result<ReaderBusyGuard, RtlSdrError>)
        ensures
            exists|x: Result<bool, bool>| #[trigger]
                tried(flag, x) && match r {
                    Ok(guard) => taken(x) is Ok && guard.flag() == flag,
                    Err(e) => taken(x) == Err::<(), Fault>(e@),
                },
    {
        let exchanged: Result<bool, bool> = flag.compare_exchange(
            false,
            true,
            Ordering::Acquire,
            Ordering::Relaxed,
        );
        assert(tried(flag, exchanged));
        match acquired(exchanged) {
            Ok(_) => {
                assert(is_taken(flag));
                Ok(ReaderBusyGuard { flag })
            },
            Err(e) => Err(e),
        }
    }
}

impl Drop for ReaderBusyGuard {
    fn drop(&mut self)
        ensures
            released(old(self).flag()),
            final(self).flag() == old(self).flag(),
        opens_invariants none
        no_unwind
    {
        store_released(&self.flag, false);
    }
}

/// What happens to the flag of a device: someone tries to take it, which exchanges its
/// value ([`tried`]), or a guard is dropped, which clears it ([`released`]).
pub enum FlagEvent {
    Acquire,
    Release,
}

/// The flag of a device, and the number of guards that hold it.
pub struct FlagState {
    pub flag: bool,
    pub holders: nat,
}

/// What comes of exchanging the flag's value for `true` where it is `false`: the
/// value that it has then, and the result of the exchange.
pub open spec fn exchange_flag(flag: bool) -> (bool, Result<bool, bool>) {
    if flag {
        (true, Err(true))
    } else {
        (true, Ok(false))
    }
}

/// The flag after an event. Taking it makes a guard where the exchange succeeds;
/// dropping a guard clears it.
pub open spec fn after_event(s: FlagState, event: FlagEvent) -> FlagState {
    match event {
        FlagEvent::Acquire => {
            let (flag, exchanged) = exchange_flag(s.flag);
            FlagState {
                flag,
                holders: if taken(exchanged) is Ok {
                    s.holders + 1
                } else {
                    s.holders
                },
            }
        },
        FlagEvent::Release => if s.holders > 0 {
            FlagState { flag: false, holders: (s.holders - 1) as nat }
        } else {
            s
        },
    }
}

/// The flag after a series of events, from one that nobody holds.
pub open spec fn after_events(events: Seq<FlagEvent>) -> FlagState
    decreases events.len(),
{
    if events.len() == 0 {
        FlagState { flag: false, holders: 0 }
    } else {
        after_event(after_events(events.drop_last()), events.last())
    }
}

/// Whatever order guards are taken and dropped in, at most one holds the flag, and
/// the flag is set exactly while one does: the next to try gets it where nobody
/// reads, and is told that the device is busy where someone does. Not part of this is
/// that the flag's memory does what an atomic exchange and an atomic store are
/// documented to do.
pub proof fn one_reader_at_a_time(events: Seq<FlagEvent>)
    ensures
        after_events(events).holders <= 1,
        after_events(events).flag == (after_events(events).holders == 1),
        taken(exchange_flag(after_events(events).flag).1) == (if after_events(events).holders == 0 {
            Ok(())
        } else {
            Err(Fault::DeviceBusy)
        }),
    decreases events.len(),
{
    if events.len() > 0 {
        one_reader_at_a_time(events.drop_last());
    }
}

/// Whether `r` is what comes of a read: `DeviceBusy` where the flag `busy` could not
/// be taken; else what `transfer` brought under a guard of that flag, with `dev_lost`
/// set where the dongle has gone.
pub open spec fn read_result<F: FnOnce(&ReaderBusyGuard) -> Result<usize, UsbError>>(
    busy: Arc<AtomicBool>,
    dev_lost: AtomicBool,
    transfer: F,
    r: Result<usize, RtlSdrError>,
) -> bool {
    exists|x: Result<bool, bool>| #[trigger]
        tried(busy, x) && match taken(x) {
            Err(e) => modelled(r) == Err::<usize, Fault>(e),
            Ok(_) => exists|guard: &ReaderBusyGuard, result: Result<usize, UsbError>|
                {
                    &&& guard.flag() == busy
                    &&& #[trigger] call_ensures(transfer, (guard,), result)
                    &&& modelled(r) == translated(result)
                    &&& means_lost(result) ==> marked(dev_lost)
                },
        }
}

/// Reads once with `transfer`, which is shown the right to read that is held
/// meanwhile.
fn read_once<F: FnOnce(&ReaderBusyGuard) -> Result<usize, UsbError>>(
    busy: &Arc<AtomicBool>,
    dev_lost: &AtomicBool,
    transfer: F,
) -> (r: Result<usize, RtlSdrError>)
    requires
        forall|guard: &ReaderBusyGuard|
            guard.flag() == *busy ==> #[trigger] call_requires(transfer, (guard,)),
    ensures
        read_result(*busy, *dev_lost, transfer, r),
{
    let guard: ReaderBusyGuard = match ReaderBusyGuard::try_acquire(busy.clone()) {
        Ok(guard) => guard,
        Err(e) => {
            return Err(e);
        },
    };
    let result: Result<usize, UsbError> = transfer(&guard);
    translate_bulk_result(result, dev_lost)
}

/// The part of a device that reads samples. It can go to another thread while the
/// device stays for control.
#[derive(Clone)]
pub struct RtlSdrReader {
    pub busy: Arc<AtomicBool>,
    pub dev_lost: Arc<AtomicBool>,
}

impl RtlSdrReader {
    /// Reads samples once with `transfer`, which is shown the right to read. It is
    /// refused while someone else reads.
    pub fn read_sync<F: FnOnce(&ReaderBusyGuard) -> Result<usize, UsbError>>(
        &self,
        transfer: F,
    ) -> (r: Result<usize, RtlSdrError>)
        requires
            forall|guard: &ReaderBusyGuard|
                guard.flag() == self.busy ==> #[trigger] call_requires(transfer, (guard,)),
        ensures
            read_result(self.busy, *self.dev_lost, transfer, r),
    {
        read_once(&self.busy, &self.dev_lost, transfer)
    }

    /// Iterates over buffers of samples; a size of zero selects the default.
    pub fn iter_samples(self, buffer_size: usize) -> (r: ReaderIter)
        ensures
            begins(self.busy, buffer_size, r@, r.held()),
            r.is_guarded(),
            r.reader() == self,
    {
        let session: ReadSession = ReadSession::start(self.busy.clone(), buffer_size);
        ReaderIter { reader: self, session }
    }

    /// Takes the right to read for a stream: gives its iteration and the reader, or
    /// the error and the reader back where someone else reads.
    pub fn begin(self, buffer_size: usize) -> (r: Result<
        (ReadSession, RtlSdrReader),
        Box<(RtlSdrError, RtlSdrReader)>,
    >)
        ensures
            exists|x: Result<bool, bool>| #[trigger]
                tried(self.busy, x) && match r {
                    Ok((session, reader)) => {
                        &&& taken(x) is Ok
                        &&& session@ == opened(taken(x), buffer_size)
                        &&& session.held() == Some(self.busy)
                        &&& session.is_guarded()
                        &&& reader == self
                    },
                    Err(back) => taken(x) == Err::<(), Fault>(back.0@) && back.1 == self,
                },
    {
        match ReaderBusyGuard::try_acquire(self.busy.clone()) {
            Ok(guard) => Ok((ReadSession::holding(guard, buffer_size), self)),
            Err(e) => Err(Box::new((e, self))),
        }
    }
}

/// An iteration over buffers of samples that owns its reader.
pub struct ReaderIter {
    reader: RtlSdrReader,
    session: ReadSession,
}

impl ReaderIter {
    pub closed spec fn view(&self) -> Session {
        self.session@
    }

    /// The reader whose device is read.
    pub closed spec fn reader(&self) -> RtlSdrReader {
        self.reader
    }

    /// The flag of the device whose right to read is held, if one is.
    pub closed spec fn held(&self) -> Option<Arc<AtomicBool>> {
        self.session.held()
    }

    /// Whether the next read is made under the right to read.
    pub open spec fn is_guarded(&self) -> bool {
        reads(self@) ==> self.held() is Some
    }

    /// Returns the next item; see [`ReadSession::next`].
    pub fn next<F: FnOnce(usize) -> Filled>(&mut self, read: F) -> (r: Option<
        Result<Vec<u8>, RtlSdrError>,
    >)
        requires
            reads(old(self)@) ==> call_requires(read, (old(self)@.buffer_size,)),
        ensures
            goes_to_next(old(self)@, *old(self).reader().dev_lost, read, final(self)@, r),
            final(self).held() == old(self).held(),
            old(self).is_guarded() ==> final(self).is_guarded(),
            final(self).reader() == old(self).reader(),
    {
        self.session.next(&self.reader.dev_lost, read)
    }
}

/// An iteration over buffers of samples that borrows its device.
pub struct SampleIter<'a, T> {
    device: &'a RtlSdrDevice<T>,
    session: ReadSession,
}

impl<'a, T> SampleIter<'a, T> {
    pub closed spec fn view(&self) -> Session {
        self.session@
    }

    /// The device that is read.
    pub closed spec fn device(&self) -> RtlSdrDevice<T> {
        *self.device
    }

    /// The flag of the device whose right to read is held, if one is.
    pub closed spec fn held(&self) -> Option<Arc<AtomicBool>> {
        self.session.held()
    }

    /// Whether the next read is made under the right to read.
    pub open spec fn is_guarded(&self) -> bool {
        reads(self@) ==> self.held() is Some
    }

    /// Returns the next item; see [`ReadSession::next`].
    pub fn next<F: FnOnce(usize) -> Filled>(&mut self, read: F) -> (r: Option<
        Result<Vec<u8>, RtlSdrError>,
    >)
        requires
            reads(old(self)@) ==> call_requires(read, (old(self)@.buffer_size,)),
        ensures
            goes_to_next(old(self)@, *old(self).device().dev_lost, read, final(self)@, r),
            final(self).held() == old(self).held(),
            old(self).is_guarded() ==> final(self).is_guarded(),
            final(self).device() == old(self).device(),
    {
        self.session.next(&self.device.dev_lost, read)
    }
}

impl<T: Tuner> RtlSdrDevice<T> {
    /// Returns a reader of this device.
    pub fn reader(&self) -> (r: RtlSdrReader)
        ensures
            r.busy == self.reader_busy,
            r.dev_lost == self.dev_lost,
    {
        RtlSdrReader { busy: self.reader_busy.clone(), dev_lost: self.dev_lost.clone() }
    }

    /// Reads samples once with `transfer`, which is shown the right to read. It is
    /// refused while someone else reads.
    pub fn read_sync<F: FnOnce(&ReaderBusyGuard) -> Result<usize, UsbError>>(
        &self,
        transfer: F,
    ) -> (r: Result<usize, RtlSdrError>)
        requires
            forall|guard: &ReaderBusyGuard|
                guard.flag() == self.reader_busy ==> #[trigger] call_requires(transfer, (guard,)),
        ensures
            read_result(self.reader_busy, *self.dev_lost, transfer, r),
    {
        read_once(&self.reader_busy, &self.dev_lost, transfer)
    }

    /// Iterates over buffers of samples; a size of zero selects the default.
    pub fn iter_samples(&self, buffer_size: usize) -> (r: SampleIter<'_, T>)
        ensures
            begins(self.reader_busy, buffer_size, r@, r.held()),
            r.is_guarded(),
            r.device() == *self,
    {
        let session: ReadSession = ReadSession::start(self.reader_busy.clone(), buffer_size);
        SampleIter { device: self, session }
    }

    /// Starts the callback loop, unless someone else reads or the buffer length is
    /// none that it takes; a length of zero selects the default.
    pub fn read_async_blocking(&self, buf_len: u32) -> (r: Result<ReadLoop, RtlSdrError>)
        ensures
            loop_begins(self.reader_busy, buf_len, r),
    {
        ReadLoop::start(self.reader_busy.clone(), buf_len)
    }
}

} // verus!
