//! The messages that nodes and the coordinator exchange.
use crate::error::{ErrorKind, Fault};
use crate::frame::bodies;
use vstd::prelude::*;

verus! {

/// A request to the coordinator.
#[derive(Clone, Debug, PartialEq, Eq)]
pub enum Request {
    /// Register the node with this identity.
    Join(Vec<u8>),
    /// Ask for the size of the value under a key.
    Contains(Vec<u8>),
    /// Map a key to a value, sent whole.
    Push(Vec<u8>, Vec<u8>),
    /// Map a key to a value, sent as a stream of frames.
    PushFile(Vec<Vec<u8>>),
    /// Ask for the value under a key, whole.
    Pull(Vec<u8>),
    /// Ask for the value under a key, as a stream of frames.
    PullFile(Vec<u8>),
    /// Unmap a key and tell every node.
    Remove(Vec<u8>),
    /// Ask for the next key that the node with this identity must evict.
    Update(Vec<u8>),
    /// Append a value to the queue with this name.
    EnQueue(Vec<u8>, Vec<u8>),
    /// Take the head of the queue with this name.
    DeQueue(Vec<u8>),
}

/// What the coordinator answers.
#[derive(Clone, Debug, PartialEq, Eq)]
pub enum Reply {
    /// Done, with nothing to report.
    Null,
    /// The size of a value in bytes.
    Size(i32),
    /// A key or a value, whole.
    Byte(Vec<u8>),
    /// A key and a value, as a stream of frames.
    Stream(Vec<Vec<u8>>),
    /// The request failed.
    Failed(Fault),
}

/// A request, as the mathematical value it stands for.
pub enum Call {
    Join(Seq<u8>),
    Contains(Seq<u8>),
    Push(Seq<u8>, Seq<u8>),
    PushFile(Seq<Seq<u8>>),
    Pull(Seq<u8>),
    PullFile(Seq<u8>),
    Remove(Seq<u8>),
    Update(Seq<u8>),
    EnQueue(Seq<u8>, Seq<u8>),
    DeQueue(Seq<u8>),
}

/// A reply, as the mathematical value it stands for.
pub enum Answer {
    Null,
    Size(i32),
    Byte(Seq<u8>),
    Stream(Seq<Seq<u8>>),
    Failed(ErrorKind, Seq<char>),
}

impl View for Request {
    type V = Call;

    open spec fn view(&self) -> Call {
        match *self {
            Request::Join(id) => Call::Join(id@),
            Request::Contains(key) => Call::Contains(key@),
            Request::Push(key, value) => Call::Push(key@, value@),
            Request::PushFile(frames) => Call::PushFile(bodies(frames@)),
            Request::Pull(key) => Call::Pull(key@),
            Request::PullFile(key) => Call::PullFile(key@),
            Request::Remove(key) => Call::Remove(key@),
            Request::Update(id) => Call::Update(id@),
            Request::EnQueue(name, value) => Call::EnQueue(name@, value@),
            Request::DeQueue(name) => Call::DeQueue(name@),
        }
    }
}

impl View for Reply {
    type V = Answer;

    open spec fn view(&self) -> Answer {
        match *self {
            Reply::Null => Answer::Null,
            Reply::Size(size) => Answer::Size(size),
            Reply::Byte(body) => Answer::Byte(body@),
            Reply::Stream(frames) => Answer::Stream(bodies(frames@)),
            Reply::Failed(fault) => Answer::Failed(fault.kind, fault.message@),
        }
    }
}

} // verus!
