//! The requests a driver hands to whoever owns the two-wire bus, and the
//! replies it takes back.
//!
//! A driver operation is a function from a phase and the reply to the
//! request before to a `Step`: either one more request to perform together
//! with the phase to come back in, or the result of the operation. In the
//! first phase of an operation the reply is not looked at.

use vstd::prelude::*;
use vstd::slice::slice_to_vec;

verus! {

/// One thing to do on the bus, or a pause.
pub enum Request {
    /// Write `bytes` to the device at `address`.
    Write { address: u8, bytes: Vec<u8> },
    /// Write `bytes`, then read `count` bytes in the same transaction.
    WriteRead { address: u8, bytes: Vec<u8>, count: usize },
    /// Read `count` bytes from the device at `address`.
    Read { address: u8, count: usize },
    /// Let `millis` milliseconds pass.
    Delay { millis: u16 },
}

/// How a request ended.
pub enum Reply {
    /// A write or a pause went through.
    Done,
    /// A read went through and brought these bytes.
    Data(Vec<u8>),
    /// The bus reported an error.
    Failed,
}

/// What an operation wants next.
pub enum Step<P, T> {
    /// Perform `request` and come back in phase `next` with the reply.
    Perform { request: Request, next: P },
    /// The operation is over with this result.
    Finished(T),
}

/// A request as a value of the model.
pub enum RequestView {
    Write { address: u8, bytes: Seq<u8> },
    WriteRead { address: u8, bytes: Seq<u8>, count: usize },
    Read { address: u8, count: usize },
    Delay { millis: u16 },
}

/// A reply as a value of the model.
pub enum ReplyView {
    Done,
    Data(Seq<u8>),
    Failed,
}

/// A step as a value of the model.
pub enum StepView<P, T> {
    Perform { request: RequestView, next: P },
    Finished(T),
}

impl View for Request {
    type V = RequestView;

    open spec fn view(&self) -> RequestView {
        match *self {
            Request::Write { address, bytes } => RequestView::Write { address, bytes: bytes@ },
            Request::WriteRead { address, bytes, count } => RequestView::WriteRead {
                address,
                bytes: bytes@,
                count,
            },
            Request::Read { address, count } => RequestView::Read { address, count },
            Request::Delay { millis } => RequestView::Delay { millis },
        }
    }
}

impl View for Reply {
    type V = ReplyView;

    open spec fn view(&self) -> ReplyView {
        match *self {
            Reply::Done => ReplyView::Done,
            Reply::Data(bytes) => ReplyView::Data(bytes@),
            Reply::Failed => ReplyView::Failed,
        }
    }
}

impl<P, T> View for Step<P, T> {
    type V = StepView<P, T>;

    open spec fn view(&self) -> StepView<P, T> {
        match *self {
            Step::Perform { request, next } => StepView::Perform { request: request@, next },
            Step::Finished(result) => StepView::Finished(result),
        }
    }
}

/// The bytes a read brought, where the reply is one of exactly `count`
/// bytes.
pub open spec fn data_of(reply: ReplyView, count: nat) -> Option<Seq<u8>> {
    match reply {
        ReplyView::Data(bytes) => if bytes.len() == count {
            Some(bytes)
        } else {
            None
        },
        _ => None,
    }
}

impl Reply {
    /// The reply to a read that brought `bytes`.
    pub fn from_bytes(bytes: &[u8]) -> (reply: Reply)
        ensures
            reply@ == ReplyView::Data(bytes@),
    {
        Reply::Data(slice_to_vec(bytes))
    }

    /// Whether a write or a pause went through.
    pub fn is_done(&self) -> (done: bool)
        ensures
            done == (self@ == ReplyView::Done),
    {
        match self {
            Reply::Done => true,
            _ => false,
        }
    }

    /// The bytes of a read that brought exactly `count` bytes.
    pub fn data(&self, count: usize) -> (bytes: Option<&Vec<u8>>)
        ensures
            match bytes {
                Some(b) => data_of(self@, count as nat) == Some(b@),
                None => data_of(self@, count as nat) is None,
            },
    {
        match self {
            Reply::Data(bytes) => if bytes.len() == count {
                Some(bytes)
            } else {
                None
            },
            _ => None,
        }
    }
}

} // verus!
