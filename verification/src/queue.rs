//! The client side of the coordinator's named queues.
use crate::buffer::{contents, from_vec, to_vec};
use crate::wire::{Answer, Call, Reply, Request};
use crate::DstoreError;
use bytes::Bytes;
use vstd::prelude::*;
use vstd::string::StringExecFns;

verus! {

/// What the reply to an append amounts to: an error with the coordinator's
/// message when it failed, else nothing.
pub open spec fn appended(answer: Answer) -> Result<(), Seq<char>> {
    match answer {
        Answer::Failed(_, text) => Err(text),
        _ => Ok(()),
    }
}

/// What the reply to a take amounts to: the value, or an error with the
/// coordinator's message, or an error for a reply that carries no value.
pub open spec fn taken(answer: Answer) -> Result<Seq<u8>, Seq<char>> {
    match answer {
        Answer::Byte(value) => Ok(value),
        Answer::Failed(_, text) => Err(text),
        _ => Err("Unexpected reply"@),
    }
}

/// A client of the coordinator's queues. It builds the requests and reads
/// the replies; sending is the caller's part.
pub struct Queue {}

impl Queue {
    /// The request that appends `value` to the queue `key`.
    pub fn push_back(key: Bytes, value: Bytes) -> (request: Request)
        ensures
            request@ == Call::EnQueue(contents(key), contents(value)),
    {
        Request::EnQueue(to_vec(&key), to_vec(&value))
    }

    /// Reads the reply to an append.
    pub fn pushed(reply: Reply) -> (r: Result<(), DstoreError>)
        ensures
            match appended(reply@) {
                Ok(_) => r is Ok,
                Err(text) => r matches Err(error) && error.0@ == text,
            },
    {
        match reply {
            Reply::Failed(fault) => Err(DstoreError(fault.message)),
            _ => Ok(()),
        }
    }

    /// The request that takes the head of the queue `key`.
    pub fn pop_front(key: Bytes) -> (request: Request)
        ensures
            request@ == Call::DeQueue(contents(key)),
    {
        Request::DeQueue(to_vec(&key))
    }

    /// Reads the reply to a take.
    pub fn popped(reply: Reply) -> (r: Result<Bytes, DstoreError>)
        ensures
            match taken(reply@) {
                Ok(value) => r matches Ok(b) && contents(b) == value,
                Err(text) => r matches Err(error) && error.0@ == text,
            },
    {
        match reply {
            Reply::Byte(value) => Ok(from_vec(value)),
            Reply::Failed(fault) => Err(DstoreError(fault.message)),
            _ => Err(DstoreError(String::from_str("Unexpected reply"))),
        }
    }
}

} // verus!
