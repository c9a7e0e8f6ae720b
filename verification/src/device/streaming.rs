//! Reading samples: what a read means, iterating over buffers, the callback loop.
//!
//! The reads themselves are handed in. A read fills a buffer of the size that it
//! is told and reports how many bytes came, or why none did.

use std::sync::atomic::{AtomicBool, Ordering};
use std::sync::Arc;

use vstd::prelude::*;
use vstd::string::*;

use crate::constants::{BULK_TIMEOUT, DEFAULT_BUF_LENGTH};
use crate::device::reader::{taken, tried, ReaderBusyGuard};
use crate::error::{is_disconnection, Fault, RtlSdrError, UsbError};
use crate::exchange::at_most;
use crate::text::{decimal, decimal_text};

verus! {

/// Largest buffer of the callback loop in bytes.
pub const MAX_BUF_LENGTH: u32 = 16_777_216;

/// A buffer of the callback loop is a multiple of so many bytes.
pub const BULK_ALIGNMENT: u32 = 512;

/// Milliseconds that a read of the callback loop may take.
pub const ASYNC_POLL_TIMEOUT: u64 = 1000;

/// The callback loop ends after so many empty reads in a row.
pub const MAX_CONSECUTIVE_ZERO_READS: u32 = 100;

/// Returns the milliseconds that a read of samples may take.
pub fn bulk_timeout() -> (r: u64)
    ensures
        r == (if BULK_TIMEOUT == 0 {
            5000
        } else {
            BULK_TIMEOUT
        }),
{
    if BULK_TIMEOUT == 0 {
        5000
    } else {
        BULK_TIMEOUT
    }
}

/// Whether a failed read means that the dongle has gone.
pub open spec fn means_lost(result: Result<usize, UsbError>) -> bool {
    result == Err::<usize, UsbError>(UsbError::NoDevice) || result == Err::<usize, UsbError>(
        UsbError::Pipe,
    ) || result == Err::<usize, UsbError>(UsbError::Io)
}

/// What a read of samples means to the caller.
pub open spec fn translated(result: Result<usize, UsbError>) -> Result<usize, Fault> {
    match result {
        Ok(n) => Ok(n),
        Err(e) => if means_lost(result) {
            Err(Fault::DeviceLost)
        } else {
            Err(Fault::Usb(e))
        },
    }
}

/// A result with its error as a value of the model.
pub open spec fn modelled<A>(r: Result<A, RtlSdrError>) -> Result<A, Fault> {
    match r {
        Ok(a) => Ok(a),
        Err(e) => Err(e@),
    }
}

/// Returns whether a read says that the dongle has gone.
pub fn is_loss(result: &Result<usize, UsbError>) -> (r: bool)
    ensures
        r == means_lost(*result),
{
    match result {
        Err(UsbError::NoDevice) => true,
        Err(UsbError::Pipe) => true,
        Err(UsbError::Io) => true,
        _ => false,
    }
}

/// Whether the flag was set for others to see.
pub open spec fn marked(flag: AtomicBool) -> bool {
    call_ensures(AtomicBool::store, (&flag, true, Ordering::Release), ())
}

/// Returns what a read of samples means to the caller, and sets `dev_lost` where
/// the dongle has gone.
pub fn translate_bulk_result(result: Result<usize, UsbError>, dev_lost: &AtomicBool) -> (r: Result<
    usize,
    RtlSdrError,
>)
    ensures
        modelled(r) == translated(result),
        means_lost(result) ==> marked(*dev_lost),
{
    if is_loss(&result) {
        dev_lost.store(true, Ordering::Release);
        assert(marked(*dev_lost));
        return Err(RtlSdrError::DeviceLost);
    }
    match result {
        Ok(n) => Ok(n),
        Err(e) => Err(RtlSdrError::Usb(e)),
    }
}

/// Where a read failed, the error that the caller sees counts as a disconnection
/// exactly where the dongle counts as gone.
pub proof fn loss_and_disconnection_agree(result: Result<usize, UsbError>)
    requires
        result is Err,
    ensures
        is_disconnection(translated(result)->Err_0) == means_lost(result),
{
}

/// The size of the buffers that are read: the default where the caller says zero.
pub open spec fn buffer_length(buffer_size: usize) -> usize {
    if buffer_size == 0 {
        DEFAULT_BUF_LENGTH as usize
    } else {
        buffer_size
    }
}

/// Returns the size of the buffers that are read: the default for zero.
pub fn effective_buffer_size(buffer_size: usize) -> (r: usize)
    ensures
        r == buffer_length(buffer_size),
        r > 0,
{
    if buffer_size == 0 {
        DEFAULT_BUF_LENGTH as usize
    } else {
        buffer_size
    }
}

/// What came of a read: the buffer, and the number of bytes in it.
pub struct Filled {
    pub buf: Vec<u8>,
    pub result: Result<usize, UsbError>,
}

/// An iteration over buffers of samples as a value of the model.
pub struct Session {
    /// Whether reads are still made.
    pub live: bool,
    pub buffer_size: usize,
    /// What is to be said before the first read.
    pub pending: Option<Fault>,
}

/// A buffer that is handed out, or an error, as a value of the model.
pub type Item = Option<Result<Seq<u8>, Fault>>;

/// An item as a value of the model.
pub open spec fn item(r: Option<Result<Vec<u8>, RtlSdrError>>) -> Item {
    match r {
        None => None,
        Some(Ok(buf)) => Some(Ok(buf@)),
        Some(Err(e)) => Some(Err(e@)),
    }
}

/// What a read gives: its bytes, or its error, or the end where no byte came.
pub open spec fn item_of(filled: Filled) -> Item {
    match translated(filled.result) {
        Ok(n) => if n == 0 {
            None
        } else {
            Some(Ok(at_most(filled.buf@, n as nat)))
        },
        Err(e) => Some(Err(e)),
    }
}

/// The next item of an iteration whose next read gives `filled`. After an error
/// and after the end nothing more comes.
pub open spec fn next_item(s: Session, filled: Filled) -> (Session, Item) {
    match s.pending {
        Some(e) => (Session { live: false, pending: None, ..s }, Some(Err(e))),
        None => if s.live {
            (Session { live: item_of(filled) matches Some(Ok(_)), ..s }, item_of(filled))
        } else {
            (s, None)
        },
    }
}

/// Whether the next item takes a read: none is pending, and the iteration has not
/// ended.
pub open spec fn reads(s: Session) -> bool {
    s.live && s.pending is None
}

/// Whether an iteration went from `s` to `t` with the item `r`. Where it took a read,
/// that was made with `read`, and `dev_lost` was set where the dongle had gone.
pub open spec fn goes_to_next<F: FnOnce(usize) -> Filled>(
    s: Session,
    dev_lost: AtomicBool,
    read: F,
    t: Session,
    r: Option<Result<Vec<u8>, RtlSdrError>>,
) -> bool {
    if reads(s) {
        exists|filled: Filled|
            {
                &&& #[trigger] call_ensures(read, (s.buffer_size,), filled)
                &&& (t, item(r)) == next_item(s, filled)
                &&& means_lost(filled.result) ==> marked(dev_lost)
            }
    } else {
        forall|filled: Filled| (t, item(r)) == #[trigger] next_item(s, filled)
    }
}

/// An iteration that starts after the flag was tried with the result `taken`.
pub open spec fn opened(taken: Result<(), Fault>, buffer_size: usize) -> Session {
    Session {
        live: true,
        buffer_size: buffer_length(buffer_size),
        pending: match taken {
            Ok(_) => None,
            Err(e) => Some(e),
        },
    }
}

/// Whether `s` is an iteration that starts with trying the flag `busy`, and `held` the
/// flag that it holds: that one where it could be taken, else none.
pub open spec fn begins(
    busy: Arc<AtomicBool>,
    buffer_size: usize,
    s: Session,
    held: Option<Arc<AtomicBool>>,
) -> bool {
    exists|x: Result<bool, bool>|
        {
            &&& #[trigger] tried(busy, x)
            &&& s == opened(taken(x), buffer_size)
            &&& held == (if taken(x) is Ok {
                Some(busy)
            } else {
                None
            })
        }
}

/// Once an iteration has given an error or has come to its end, it gives nothing
/// more, whatever later reads would bring.
pub proof fn iteration_ends_once(s: Session, filled: Filled, later: Filled)
    requires
        !(next_item(s, filled).1 matches Some(Ok(_))),
    ensures
        next_item(next_item(s, filled).0, later) == (next_item(s, filled).0, None::<
            Result<Seq<u8>, Fault>,
        >),
{
}

/// An iteration hands out no empty buffer and none that is longer than what was
/// read.
pub proof fn items_are_filled(s: Session, filled: Filled)
    requires
        filled.buf@.len() > 0,
    ensures
        next_item(s, filled).1 matches Some(Ok(bytes)) ==> 0 < bytes.len() <= filled.buf@.len()
            && bytes == filled.buf@.take(bytes.len() as int),
{
    if let Some(Ok(bytes)) = next_item(s, filled).1 {
        assert(bytes =~= filled.buf@.take(bytes.len() as int));
    }
}

/// An iteration over buffers of samples. It holds the right to read as long as it
/// lives.
pub struct ReadSession {
    live: bool,
    buffer_size: usize,
    guard: Option<ReaderBusyGuard>,
    pending_error: Option<RtlSdrError>,
}

impl ReadSession {
    pub closed spec fn view(&self) -> Session {
        Session {
            live: self.live,
            buffer_size: self.buffer_size,
            pending: match self.pending_error {
                Some(e) => Some(e@),
                None => None,
            },
        }
    }

    /// The flag of the device whose right to read the iteration holds, if it holds
    /// one.
    pub closed spec fn held(&self) -> Option<Arc<AtomicBool>> {
        match self.guard {
            Some(guard) => Some(guard.flag()),
            None => None,
        }
    }

    /// Whether a read that the iteration would make next is made under the right to
    /// read.
    pub open spec fn is_guarded(&self) -> bool {
        reads(self@) ==> self.held() is Some
    }

    /// Starts an iteration. Where someone else reads, the first item will say so.
    pub fn start(busy: Arc<AtomicBool>, buffer_size: usize) -> (r: ReadSession)
        ensures
            begins(busy, buffer_size, r@, r.held()),
            r.is_guarded(),
    {
        match ReaderBusyGuard::try_acquire(busy) {
            Ok(guard) => ReadSession::holding(guard, buffer_size),
            Err(e) => ReadSession {
                live: true,
                buffer_size: effective_buffer_size(buffer_size),
                guard: None,
                pending_error: Some(e),
            },
        }
    }

    /// Starts an iteration of someone who holds the right to read.
    pub fn holding(guard: ReaderBusyGuard, buffer_size: usize) -> (r: ReadSession)
        ensures
            r@ == opened(Ok(()), buffer_size),
            r.held() == Some(guard.flag()),
            r.is_guarded(),
    {
        ReadSession {
            live: true,
            buffer_size: effective_buffer_size(buffer_size),
            guard: Some(guard),
            pending_error: None,
        }
    }

    /// Returns the next item. A read is made with `read`, which is told the size of
    /// the buffer, at most once, and not at all where an error is pending or the
    /// iteration has ended.
    pub fn next<F: FnOnce(usize) -> Filled>(&mut self, dev_lost: &AtomicBool, read: F) -> (r: Option<
        Result<Vec<u8>, RtlSdrError>,
    >)
        requires
            reads(old(self)@) ==> call_requires(read, (old(self)@.buffer_size,)),
        ensures
            goes_to_next(old(self)@, *dev_lost, read, final(self)@, r),
            final(self).held() == old(self).held(),
            old(self).is_guarded() ==> final(self).is_guarded(),
    {
        if self.pending_error.is_some() {
            self.live = false;
            return match self.pending_error.take() {
                Some(e) => Some(Err(e)),
                None => None,
            };
        }
        if !self.live {
            return None;
        }
        let filled: Filled = read(self.buffer_size);
        let ghost was = filled;
        let Filled { buf, result } = filled;
        let mut buf: Vec<u8> = buf;
        let r: Option<Result<Vec<u8>, RtlSdrError>> = match translate_bulk_result(
            result,
            dev_lost,
        ) {
            Ok(n) => {
                if n == 0 {
                    self.live = false;
                    None
                } else {
                    if n < buf.len() {
                        buf.truncate(n);
                    }
                    assert(buf@ =~= at_most(was.buf@, n as nat));
                    Some(Ok(buf))
                }
            },
            Err(e) => {
                self.live = false;
                Some(Err(e))
            },
        };
        assert((self@, item(r)) == next_item(old(self)@, was));
        r
    }
}

/// What is said of a buffer length that the callback loop does not take.
pub open spec fn buf_len_message(buf_len: u32) -> Seq<char> {
    "buf_len must be a multiple of 512 and <= 16777216, got "@ + decimal(buf_len as nat)
}

/// The buffer length of the callback loop: the default for zero.
pub open spec fn loop_length(buf_len: u32) -> Result<usize, Fault> {
    if buf_len == 0 {
        Ok(DEFAULT_BUF_LENGTH as usize)
    } else if buf_len % BULK_ALIGNMENT != 0 || buf_len > MAX_BUF_LENGTH {
        Err(Fault::InvalidParameter(buf_len_message(buf_len)))
    } else {
        Ok(buf_len as usize)
    }
}

/// Returns the buffer length of the callback loop: the default for zero.
pub fn checked_loop_length(buf_len: u32) -> (r: Result<usize, RtlSdrError>)
    ensures
        modelled(r) == loop_length(buf_len),
{
    if buf_len == 0 {
        Ok(DEFAULT_BUF_LENGTH as usize)
    } else if buf_len % BULK_ALIGNMENT != 0 || buf_len > MAX_BUF_LENGTH {
        let mut msg: String = String::from_str(
            "buf_len must be a multiple of 512 and <= 16777216, got ",
        );
        msg.append(decimal_text(buf_len as u64).as_str());
        Err(RtlSdrError::InvalidParameter(msg))
    } else {
        Ok(buf_len as usize)
    }
}

/// What happens to the callback loop.
#[derive(Debug, PartialEq, Eq)]
pub enum LoopEvent {
    /// The caller wants no more.
    Cancelled,
    /// A read was made.
    Read(Result<usize, UsbError>),
}

/// What the callback loop does then.
#[derive(Debug, PartialEq, Eq)]
pub enum LoopAction {
    /// Call back with so many bytes of the buffer, and read again.
    Deliver(usize),
    /// Read again.
    Again,
    /// End with a result.
    Stop(Result<(), RtlSdrError>),
}

/// A [`LoopAction`] as a value of the model.
pub enum Action {
    Deliver(usize),
    Again,
    Stop(Result<(), Fault>),
}

impl LoopAction {
    pub open spec fn view(self) -> Action {
        match self {
            LoopAction::Deliver(n) => Action::Deliver(n),
            LoopAction::Again => Action::Again,
            LoopAction::Stop(r) => Action::Stop(modelled(r)),
        }
    }
}

/// What the callback loop does at an event, when `zeros` empty reads in a row have
/// come before; and how many have come then. A read that timed out is neither an
/// empty one nor one that ends a row.
pub open spec fn loop_step(zeros: nat, event: LoopEvent) -> (nat, Action) {
    match event {
        LoopEvent::Cancelled => (zeros, Action::Stop(Ok(()))),
        LoopEvent::Read(Ok(n)) => if n > 0 {
            (0, Action::Deliver(n))
        } else if zeros + 1 >= MAX_CONSECUTIVE_ZERO_READS {
            (zeros + 1, Action::Stop(Ok(())))
        } else {
            (zeros + 1, Action::Again)
        },
        LoopEvent::Read(Err(UsbError::Timeout)) => (zeros, Action::Again),
        LoopEvent::Read(Err(e)) => {
            (zeros, Action::Stop(Err(translated(Err::<usize, UsbError>(e))->Err_0)))
        },
    }
}

/// The callback loop: a read after the other until it is told to stop. It holds
/// the right to read as long as it lives.
pub struct ReadLoop {
    buf_len: usize,
    zero_reads: u32,
    guard: ReaderBusyGuard,
}

/// Whether `r` is what comes of starting a loop: the error of the flag `busy` where it
/// could not be taken, else that of the buffer length where it is none that the loop
/// takes, else a loop that holds the flag.
pub open spec fn loop_begins(
    busy: Arc<AtomicBool>,
    buf_len: u32,
    r: Result<ReadLoop, RtlSdrError>,
) -> bool {
    exists|x: Result<bool, bool>| #[trigger]
        tried(busy, x) && match r {
            Ok(l) => {
                &&& taken(x) is Ok
                &&& loop_length(buf_len) == Ok::<usize, Fault>(l.length())
                &&& l.zeros() == 0
                &&& l.flag() == busy
            },
            Err(e) => if taken(x) is Err {
                taken(x) == Err::<(), Fault>(e@)
            } else {
                loop_length(buf_len) == Err::<usize, Fault>(e@)
            },
        }
}

impl ReadLoop {
    /// The length of the buffer.
    pub closed spec fn length(&self) -> usize {
        self.buf_len
    }

    /// The number of empty reads in a row.
    pub closed spec fn zeros(&self) -> nat {
        self.zero_reads as nat
    }

    /// The flag of the device whose right to read the loop holds.
    pub closed spec fn flag(&self) -> Arc<AtomicBool> {
        self.guard.flag()
    }

    /// Starts the loop of someone who holds the right to read, unless the buffer
    /// length is none that it takes. The right is given up where it does not start.
    pub fn holding(guard: ReaderBusyGuard, buf_len: u32) -> (r: Result<ReadLoop, RtlSdrError>)
        ensures
            match r {
                Ok(l) => {
                    &&& loop_length(buf_len) == Ok::<usize, Fault>(l.length())
                    &&& l.zeros() == 0
                    &&& l.flag() == guard.flag()
                },
                Err(e) => loop_length(buf_len) == Err::<usize, Fault>(e@),
            },
    {
        let buf_len: usize = checked_loop_length(buf_len)?;
        Ok(ReadLoop { buf_len, zero_reads: 0, guard })
    }

    /// Starts the loop, unless someone else reads or the buffer length is none that
    /// it takes.
    pub fn start(busy: Arc<AtomicBool>, buf_len: u32) -> (r: Result<ReadLoop, RtlSdrError>)
        ensures
            loop_begins(busy, buf_len, r),
    {
        let guard: ReaderBusyGuard = ReaderBusyGuard::try_acquire(busy)?;
        ReadLoop::holding(guard, buf_len)
    }

    /// Returns the length of the buffer.
    pub fn buf_len(&self) -> (r: usize)
        ensures
            r == self.length(),
    {
        self.buf_len
    }

    /// Says what to do at an event; sets `dev_lost` where the dongle has gone.
    pub fn step(&mut self, event: LoopEvent, dev_lost: &AtomicBool) -> (r: LoopAction)
        requires
            old(self).zeros() < MAX_CONSECUTIVE_ZERO_READS,
        ensures
            (final(self).zeros(), r@) == loop_step(old(self).zeros(), event),
            final(self).length() == old(self).length(),
            final(self).flag() == old(self).flag(),
            event matches LoopEvent::Read(result) && means_lost(result) ==> marked(*dev_lost),
            !(r is Stop) ==> final(self).zeros() < MAX_CONSECUTIVE_ZERO_READS,
    {
        match event {
            LoopEvent::Cancelled => LoopAction::Stop(Ok(())),
            LoopEvent::Read(Ok(n)) => {
                if n > 0 {
                    self.zero_reads = 0;
                    LoopAction::Deliver(n)
                } else {
                    self.zero_reads += 1;
                    if self.zero_reads >= MAX_CONSECUTIVE_ZERO_READS {
                        LoopAction::Stop(Ok(()))
                    } else {
                        LoopAction::Again
                    }
                }
            },
            LoopEvent::Read(Err(UsbError::Timeout)) => LoopAction::Again,
            LoopEvent::Read(Err(e)) => match translate_bulk_result(Err(e), dev_lost) {
                Ok(_) => LoopAction::Again,
                Err(seen) => LoopAction::Stop(Err(seen)),
            },
        }
    }
}

/// The number of empty reads in a row after `events`, and what the loop does then.
/// It stays stopped once it has stopped.
pub open spec fn loop_run(events: Seq<LoopEvent>) -> (nat, Action)
    decreases events.len(),
{
    if events.len() == 0 {
        (0, Action::Again)
    } else {
        let before = loop_run(events.drop_last());
        if before.1 is Stop {
            before
        } else {
            loop_step(before.0, events.last())
        }
    }
}

/// Whether an event is an empty read.
pub open spec fn is_empty_read(event: LoopEvent) -> bool {
    event == LoopEvent::Read(Ok(0))
}

/// Whether an event is a read that timed out.
pub open spec fn is_timed_out(event: LoopEvent) -> bool {
    event == LoopEvent::Read(Err(UsbError::Timeout))
}

/// The number of empty reads among `events`.
pub open spec fn empty_reads(events: Seq<LoopEvent>) -> nat
    decreases events.len(),
{
    if events.len() == 0 {
        0
    } else {
        empty_reads(events.drop_last()) + (if is_empty_read(events.last()) {
            1nat
        } else {
            0nat
        })
    }
}

/// A dongle from which nothing comes but empty reads and timeouts: the loop goes on
/// up to the hundredth empty read and ends there, without an error.
pub proof fn hundred_empty_reads_end_the_loop(events: Seq<LoopEvent>)
    requires
        forall|i: int|
            0 <= i < events.len() ==> is_empty_read(#[trigger] events[i]) || is_timed_out(events[i]),
    ensures
        if empty_reads(events) < MAX_CONSECUTIVE_ZERO_READS {
            loop_run(events) == (empty_reads(events), Action::Again)
        } else {
            loop_run(events).1 == Action::Stop(Ok(()))
        },
    decreases events.len(),
{
    if events.len() > 0 {
        let before = events.drop_last();
        assert forall|i: int| 0 <= i < before.len() implies is_empty_read(#[trigger] before[i])
            || is_timed_out(before[i]) by {
            assert(before[i] == events[i]);
        }
        hundred_empty_reads_end_the_loop(before);
        assert(events.last() == events[events.len() - 1]);
    }
}

/// Cancelling ends a loop that has not ended yet, without an error, and nothing
/// that comes later starts it again.
pub proof fn cancelling_ends_the_loop(before: Seq<LoopEvent>, after: Seq<LoopEvent>)
    requires
        !(loop_run(before).1 is Stop),
    ensures
        loop_run(before.push(LoopEvent::Cancelled) + after).1 == Action::Stop(Ok(())),
    decreases after.len(),
{
    let first = before.push(LoopEvent::Cancelled);
    if after.len() == 0 {
        assert(first + after =~= first);
        assert(first.drop_last() =~= before);
    } else {
        cancelling_ends_the_loop(before, after.drop_last());
        assert((first + after).drop_last() =~= first + after.drop_last());
    }
}

/// A buffer of samples starts the count of empty reads anew.
pub proof fn samples_reset_the_count(zeros: nat, n: usize)
    requires
        n > 0,
    ensures
        loop_step(zeros, LoopEvent::Read(Ok(n))) == (0nat, Action::Deliver(n)),
{
}

/// A read that found no device, a broken pipe or an input/output error means that the
/// dongle has gone; any other error stays what it is, and a number of bytes too.
pub proof fn reads_keep_their_meaning(result: Result<usize, UsbError>)
    ensures
        result matches Ok(n) ==> translated(result) == Ok::<usize, Fault>(n),
        result matches Err(e) ==> translated(result) == Err::<usize, Fault>(
            match e {
                UsbError::NoDevice => Fault::DeviceLost,
                UsbError::Pipe => Fault::DeviceLost,
                UsbError::Io => Fault::DeviceLost,
                UsbError::InvalidParam => Fault::Usb(UsbError::InvalidParam),
                UsbError::Access => Fault::Usb(UsbError::Access),
                UsbError::NotFound => Fault::Usb(UsbError::NotFound),
                UsbError::Busy => Fault::Usb(UsbError::Busy),
                UsbError::Timeout => Fault::Usb(UsbError::Timeout),
                UsbError::Overflow => Fault::Usb(UsbError::Overflow),
                UsbError::Interrupted => Fault::Usb(UsbError::Interrupted),
                UsbError::NoMem => Fault::Usb(UsbError::NoMem),
                UsbError::NotSupported => Fault::Usb(UsbError::NotSupported),
                UsbError::BadDescriptor => Fault::Usb(UsbError::BadDescriptor),
                UsbError::Other => Fault::Usb(UsbError::Other),
            },
        ),
{
}

/// An iteration that reads hands out the bytes that came, all of them and no others, for
/// every read that brings some; and ends at the first that brings none.
pub proof fn bytes_are_handed_out(s: Session, filled: Filled, n: usize)
    requires
        reads(s),
        filled.result == Ok::<usize, UsbError>(n),
        n <= filled.buf@.len(),
    ensures
        n > 0 ==> next_item(s, filled) == (s, Some(Ok::<Seq<u8>, Fault>(filled.buf@.take(n as int)))),
        n == 0 ==> next_item(s, filled).1 is None && !next_item(s, filled).0.live,
{
    assert(at_most(filled.buf@, n as nat) =~= filled.buf@.take(n as int));
}

/// The buffers of the callback loop are multiples of 512 bytes, of 16 MiB at most, and those
/// of 256 KiB where the caller says zero; any other length is refused. An iteration takes
/// any length, and 256 KiB for zero.
pub proof fn buffers_have_the_length_asked_for(buf_len: u32, buffer_size: usize)
    ensures
        loop_length(buf_len) matches Ok(n) ==> n % 512 == 0 && 0 < n <= 16_777_216 && (if buf_len
            == 0 {
            n == 262_144
        } else {
            n == buf_len
        }),
        loop_length(buf_len) is Err <==> buf_len % 512 != 0 || buf_len > 16_777_216,
        buffer_size > 0 ==> buffer_length(buffer_size) == buffer_size,
        buffer_length(0) == 262_144,
{
}

/// A read that fails ends the callback loop with what the error means, whatever came
/// before; only one that timed out does not.
pub proof fn errors_end_the_loop(zeros: nat, e: UsbError)
    ensures
        ({
            let (after, action) = loop_step(zeros, LoopEvent::Read(Err(e)));
            &&& after == zeros
            &&& e == UsbError::Timeout ==> action == Action::Again
            &&& e == UsbError::NoDevice || e == UsbError::Pipe || e == UsbError::Io ==> action
                == Action::Stop(Err(Fault::DeviceLost))
            &&& e != UsbError::Timeout && e != UsbError::NoDevice && e != UsbError::Pipe && e
                != UsbError::Io ==> action == Action::Stop(Err(Fault::Usb(e)))
        }),
{
}

/// An empty read adds one to the row of empty reads, and the loop ends where that makes a
/// hundred.
pub proof fn empty_reads_are_counted(zeros: nat)
    ensures
        ({
            let (after, action) = loop_step(zeros, LoopEvent::Read(Ok(0)));
            &&& after == zeros + 1
            &&& after < 100 ==> action == Action::Again
            &&& after >= 100 ==> action == Action::Stop(Ok(()))
        }),
{
}

} // verus!
