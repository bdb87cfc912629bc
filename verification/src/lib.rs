//! A distributed in-memory key-value store: one authoritative coordinator,
//! many caching nodes, and the framing that carries large values between them.
//!
//! This crate holds the sequential core of the system: the coordinator's state
//! engine, the node's cache-coherence protocol written as a step function, and
//! the framing codec. Transport, timers and locking are left to the caller.
use vstd::prelude::*;
use vstd::string::StringExecFns;

pub mod assoc;
pub mod buffer;
pub mod error;
pub mod frame;
pub mod global;
pub mod lanes;
pub mod laws;
pub mod local;
pub mod queue;
pub mod system;
pub mod table;
pub mod wire;

pub use error::{ErrorKind, Fault};
pub use global::Global;
pub use local::{Failure, Local, Missing, Pending, Step, Success};
pub use queue::Queue;
pub use wire::{Reply, Request};

verus! {

/// Largest body, in bytes, that a single frame may carry.
pub const MAX_BYTE_SIZE: usize = 4_194_304;

/// Seconds between two drains of a node's invalidation sequence, unless the
/// node is set up otherwise.
pub const POLL_INTERVAL_SECS: u64 = 5;

/// Frames that may wait between the coordinator and the wire while a value
/// is streamed out.
pub const STREAM_BUFFER: usize = 4;

/// An error as the caller of a node or a queue sees it: a message.
#[derive(Debug)]
pub struct DstoreError(pub String);

impl DstoreError {
    /// The message, marked as coming from this library.
    pub fn to_string(&self) -> (text: String)
        ensures
            text@ == "dstore error: "@ + self.0@,
    {
        String::from_str("dstore error: ").concat(self.0.as_str())
    }
}

} // verus!
