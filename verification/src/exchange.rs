//! The conversation with the dongle: transfers asked for, answers received.
//!
//! An operation of this library does not perform its USB transfers. It runs
//! against an [`Exchange`] that holds the answers received so far. Each transfer
//! is recorded; if its answer is there the operation goes on with it, else the
//! operation stops with [`Halt::Waiting`]. The caller then performs the transfer
//! that [`Exchange::awaited`] names, adds the answer, and runs the operation
//! again from the state it started from. The second run asks for the same
//! transfers as the first and gets one answer further: the predicate
//! [`resumes`] says so, and every operation has a proof of it.

use vstd::prelude::*;
use vstd::slice::*;

use crate::error::{Fault, RtlSdrError, UsbError};

verus! {

/// A control transfer that the library asks for.
#[derive(Debug, PartialEq, Eq)]
pub enum Request {
    /// Read up to `len` bytes.
    ControlIn { value: u16, index: u16, len: usize },
    /// Write `data`.
    ControlOut { value: u16, index: u16, data: Vec<u8> },
}

/// A [`Request`] as a value of the model.
pub enum Transfer {
    In { value: u16, index: u16, len: nat },
    Out { value: u16, index: u16, data: Seq<u8> },
}

impl Request {
    pub open spec fn view(self) -> Transfer {
        match self {
            Request::ControlIn { value, index, len } => {
                Transfer::In { value, index, len: len as nat }
            },
            Request::ControlOut { value, index, data } => {
                Transfer::Out { value, index, data: data@ }
            },
        }
    }

    /// Returns the setup packet's request type: vendor request, to the host for
    /// a read, to the device for a write.
    pub fn request_type(&self) -> (r: u8)
        ensures
            r == (if self is ControlIn {
                0xc0u8
            } else {
                0x40u8
            }),
    {
        match self {
            Request::ControlIn { .. } => 0xc0,
            Request::ControlOut { .. } => 0x40,
        }
    }
}

/// What came of a transfer.
#[derive(Debug, PartialEq, Eq)]
pub enum Reply {
    /// A write: the number of bytes that were taken.
    Sent(usize),
    /// A read: the bytes that came.
    Received(Vec<u8>),
    /// The transfer failed.
    Failed(UsbError),
}

/// A [`Reply`] as a value of the model.
pub enum Answer {
    Sent(nat),
    Received(Seq<u8>),
    Failed(UsbError),
}

impl Reply {
    pub open spec fn view(self) -> Answer {
        match self {
            Reply::Sent(n) => Answer::Sent(n as nat),
            Reply::Received(data) => Answer::Received(data@),
            Reply::Failed(e) => Answer::Failed(e),
        }
    }
}

/// Why an operation did not finish.
#[derive(Debug, PartialEq, Eq)]
pub enum Halt {
    /// The answer to the last transfer asked for is not there yet.
    Waiting,
    /// The operation failed.
    Failed(RtlSdrError),
}

/// How an operation ended, as a value of the model.
pub enum Flow<A> {
    Done(A),
    Failed(Fault),
    Waiting,
}

/// The result of an operation, as a value of the model.
pub open spec fn flow_of<A>(r: Result<A, Halt>) -> Flow<A> {
    match r {
        Ok(a) => Flow::Done(a),
        Err(Halt::Failed(e)) => Flow::Failed(e@),
        Err(Halt::Waiting) => Flow::Waiting,
    }
}

/// The result of an operation that counts bytes, as a value of the model.
pub open spec fn flow_of_count(r: Result<usize, Halt>) -> Flow<nat> {
    match r {
        Ok(n) => Flow::Done(n as nat),
        Err(Halt::Failed(e)) => Flow::Failed(e@),
        Err(Halt::Waiting) => Flow::Waiting,
    }
}

/// The result of an operation that gives bytes, as a value of the model.
pub open spec fn flow_of_bytes(r: Result<Vec<u8>, Halt>) -> Flow<Seq<u8>> {
    match r {
        Ok(data) => Flow::Done(data@),
        Err(Halt::Failed(e)) => Flow::Failed(e@),
        Err(Halt::Waiting) => Flow::Waiting,
    }
}

/// The conversation as a value of the model: the transfers asked for, and the
/// answers at hand. The answer at a position belongs to the transfer there.
#[verifier::ext_equal]
pub struct Port {
    pub sent: Seq<Transfer>,
    pub replies: Seq<Answer>,
}

/// A run of an operation: the state that it left, the conversation, the result.
#[verifier::ext_equal]
pub struct Run<S, A> {
    pub state: S,
    pub port: Port,
    pub flow: Flow<A>,
}

/// The same run, with its result replaced by that of a longer operation.
pub open spec fn cut_short<S, A, B>(r: Run<S, A>) -> Run<S, B> {
    Run {
        state: r.state,
        port: r.port,
        flow: match r.flow {
            Flow::Failed(e) => Flow::Failed(e),
            _ => Flow::Waiting,
        },
    }
}

/// The run of a longer operation in the state `state` that a part of it ended.
pub open spec fn stopped<S, T, A, B>(state: S, part: Run<T, A>) -> Run<S, B> {
    Run {
        state,
        port: part.port,
        flow: match part.flow {
            Flow::Failed(e) => Flow::Failed(e),
            _ => Flow::Waiting,
        },
    }
}

/// Asking for a transfer that writes.
pub open spec fn send(p: Port, t: Transfer) -> Run<(), nat> {
    Run {
        state: (),
        port: Port { sent: p.sent.push(t), replies: p.replies },
        flow: if p.sent.len() < p.replies.len() {
            match p.replies[p.sent.len() as int] {
                Answer::Sent(n) => Flow::Done(n),
                Answer::Received(_) => Flow::Failed(Fault::Usb(UsbError::Other)),
                Answer::Failed(e) => Flow::Failed(Fault::Usb(e)),
            }
        } else {
            Flow::Waiting
        },
    }
}

/// The first `n` elements of `s`, or all of it where it has fewer.
pub open spec fn at_most(s: Seq<u8>, n: nat) -> Seq<u8> {
    if s.len() <= n {
        s
    } else {
        s.take(n as int)
    }
}

/// Asking for a transfer that reads at most `len` bytes.
pub open spec fn fetch(p: Port, value: u16, index: u16, len: nat) -> Run<(), Seq<u8>> {
    Run {
        state: (),
        port: Port {
            sent: p.sent.push(Transfer::In { value, index, len }),
            replies: p.replies,
        },
        flow: if p.sent.len() < p.replies.len() {
            match p.replies[p.sent.len() as int] {
                Answer::Sent(_) => Flow::Failed(Fault::Usb(UsbError::Other)),
                Answer::Received(data) => Flow::Done(at_most(data, len)),
                Answer::Failed(e) => Flow::Failed(Fault::Usb(e)),
            }
        } else {
            Flow::Waiting
        },
    }
}

/// Whether `long` goes on from `short`.
pub open spec fn goes_on(short: Seq<Transfer>, long: Seq<Transfer>) -> bool {
    &&& short.len() <= long.len()
    &&& forall|i: int| 0 <= i < short.len() ==> short[i] == #[trigger] long[i]
}

/// The conversation with further answers at hand.
pub open spec fn later(p: Port, more: Seq<Answer>) -> Port {
    Port { sent: p.sent, replies: p.replies + more }
}

/// Whether the two runs of one operation, the first from the conversation `p`,
/// the second from `p` with `more` answers at hand, agree: both go on from `p`;
/// if the first finished, the second ended the same way, having asked for the
/// same transfers; if the first stopped for want of an answer, it stopped at the
/// first transfer without one, and the second asked for the same transfers
/// before any other.
pub open spec fn resumes<S, A>(
    p: Port,
    early: Run<S, A>,
    late: Run<S, A>,
    more: Seq<Answer>,
) -> bool {
    &&& goes_on(p.sent, early.port.sent)
    &&& goes_on(p.sent, late.port.sent)
    &&& early.port.replies == p.replies
    &&& late.port.replies == p.replies + more
    &&& match early.flow {
        Flow::Waiting => {
            &&& goes_on(early.port.sent, late.port.sent)
            &&& p.sent.len() <= p.replies.len() ==> early.port.sent.len() == p.replies.len() + 1
        },
        _ => {
            &&& late.flow == early.flow
            &&& late.state == early.state
            &&& late.port.sent == early.port.sent
            &&& p.sent.len() <= p.replies.len() ==> early.port.sent.len() <= p.replies.len()
        },
    }
}

/// A write agrees with itself when answers come later.
pub proof fn send_resumes(p: Port, t: Transfer, more: Seq<Answer>)
    ensures
        resumes(p, send(p, t), send(later(p, more), t), more),
{
}

/// A read agrees with itself when answers come later.
pub proof fn fetch_resumes(p: Port, value: u16, index: u16, len: nat, more: Seq<Answer>)
    ensures
        resumes(
            p,
            fetch(p, value, index, len),
            fetch(later(p, more), value, index, len),
            more,
        ),
{
}

/// What a run waits for is what every later run of the operation asks for at that
/// place: the answer that comes for it is the answer to the right transfer. Here
/// `early` started a conversation with the answers of `p` and waits for one more.
pub proof fn awaited_transfer_stays<S, A>(
    p: Port,
    early: Run<S, A>,
    late: Run<S, A>,
    more: Seq<Answer>,
)
    requires
        p.sent.len() == 0,
        early.flow is Waiting,
        resumes(p, early, late, more),
    ensures
        early.port.sent.len() == p.replies.len() + 1,
        late.port.sent.len() > p.replies.len(),
        late.port.sent[p.replies.len() as int] == early.port.sent.last(),
{
}

/// A conversation is itself with no further answers; and the conversation `early`
/// with `more` answers is `late`, as far as the answers at hand go, where `late`
/// has those answers.
pub proof fn in_step(early: Port, late: Port, more: Seq<Answer>)
    ensures
        later(late, Seq::empty()) == late,
        late.replies == early.replies + more ==> later(early, more) == (Port {
            sent: early.sent,
            replies: late.replies,
        }),
{
    assert(later(late, Seq::empty()) =~= late);
}

/// The conversation of one run of an operation.
pub struct Exchange {
    requests: Vec<Request>,
    replies: Vec<Reply>,
}

/// The transfers behind a vector of requests.
pub open spec fn transfers(requests: Seq<Request>) -> Seq<Transfer> {
    Seq::new(requests.len(), |i: int| requests[i]@)
}

/// The answers behind a vector of replies.
pub open spec fn answers(replies: Seq<Reply>) -> Seq<Answer> {
    Seq::new(replies.len(), |i: int| replies[i]@)
}

impl Exchange {
    pub closed spec fn view(&self) -> Port {
        Port { sent: transfers(self.requests@), replies: answers(self.replies@) }
    }

    /// Starts a conversation with the answers at hand.
    pub fn new(replies: Vec<Reply>) -> (r: Exchange)
        ensures
            r@ == (Port { sent: Seq::empty(), replies: answers(replies@) }),
    {
        let r: Exchange = Exchange { requests: Vec::new(), replies };
        assert(transfers(r.requests@) =~= Seq::empty());
        r
    }

    /// Returns the transfer whose answer is not there yet, if there is one.
    pub fn awaited(&self) -> (r: Option<&Request>)
        ensures
            match r {
                Some(t) => self@.sent.len() > self@.replies.len() && t@ == self@.sent.last(),
                None => self@.sent.len() <= self@.replies.len(),
            },
    {
        let n: usize = self.requests.len();
        if n > self.replies.len() {
            Some(&self.requests[n - 1])
        } else {
            None
        }
    }

    /// Returns the transfers asked for, in order.
    pub fn requests(&self) -> (r: &Vec<Request>)
        ensures
            transfers(r@) == self@.sent,
    {
        &self.requests
    }

    /// Hands the answers back, so that the next one can be added.
    pub fn into_replies(self) -> (r: Vec<Reply>)
        ensures
            answers(r@) == self@.replies,
    {
        self.replies
    }

    /// Asks for a transfer that writes `data`.
    pub(crate) fn control_out(&mut self, value: u16, index: u16, data: Vec<u8>) -> (r: Result<
        usize,
        Halt,
    >)
        ensures
            (Run { state: (), port: final(self)@, flow: flow_of_count(r) }) == send(
                old(self)@,
                Transfer::Out { value, index, data: data@ },
            ),
    {
        let n: usize = self.requests.len();
        let ghost before = self.requests@;
        self.requests.push(Request::ControlOut { value, index, data });
        proof {
            assert(transfers(self.requests@) =~= transfers(before).push(
                Transfer::Out { value, index, data: data@ },
            ));
        }
        if n < self.replies.len() {
            match &self.replies[n] {
                Reply::Sent(count) => Ok(*count),
                Reply::Received(_) => Err(Halt::Failed(RtlSdrError::Usb(UsbError::Other))),
                Reply::Failed(e) => Err(Halt::Failed(RtlSdrError::Usb(*e))),
            }
        } else {
            Err(Halt::Waiting)
        }
    }

    /// Asks for a transfer that reads at most `len` bytes.
    pub(crate) fn control_in(&mut self, value: u16, index: u16, len: usize) -> (r: Result<
        Vec<u8>,
        Halt,
    >)
        ensures
            (Run { state: (), port: final(self)@, flow: flow_of_bytes(r) }) == fetch(
                old(self)@,
                value,
                index,
                len as nat,
            ),
    {
        let n: usize = self.requests.len();
        let ghost before = self.requests@;
        self.requests.push(Request::ControlIn { value, index, len });
        proof {
            assert(transfers(self.requests@) =~= transfers(before).push(
                Transfer::In { value, index, len: len as nat },
            ));
        }
        if n < self.replies.len() {
            match &self.replies[n] {
                Reply::Sent(_) => Err(Halt::Failed(RtlSdrError::Usb(UsbError::Other))),
                Reply::Received(data) => {
                    let count: usize = if data.len() <= len {
                        data.len()
                    } else {
                        len
                    };
                    let taken: Vec<u8> = slice_to_vec(slice_subrange(data.as_slice(), 0, count));
                    assert(taken@ =~= at_most(data@, len as nat));
                    Ok(taken)
                },
                Reply::Failed(e) => Err(Halt::Failed(RtlSdrError::Usb(*e))),
            }
        } else {
            Err(Halt::Waiting)
        }
    }
}

/// A conversation that goes on from one that goes on from another goes on from that.
pub proof fn in_turn(a: Port, b: Port, c: Port)
    requires
        goes_on(a.sent, b.sent),
        goes_on(b.sent, c.sent),
    ensures
        goes_on(a.sent, c.sent),
{
    assert forall|i: int| 0 <= i < a.sent.len() implies a.sent[i] == #[trigger] c.sent[i] by {
        assert(b.sent[i] == c.sent[i]);
    }
}

} // verus!
