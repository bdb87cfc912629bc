//! What can go wrong at the coordinator, and how it is told apart on the wire.
use vstd::prelude::*;
use vstd::string::StringExecFns;

verus! {

/// The kinds of failure the system distinguishes.
#[derive(Clone, Copy, Debug, PartialEq, Eq, Structural)]
pub enum ErrorKind {
    /// No mapping, or nothing queued, under the name asked for.
    NotFound,
    /// The key already has a value at the coordinator.
    AlreadyExists,
    /// A stream ended before its key frame.
    MalformedStream,
    /// The caller named a node that never joined.
    UnknownNode,
    /// The coordinator refused a node's join.
    JoinFailed,
    /// The coordinator could not be reached, or went away mid-reply.
    CoordinatorUnreachable,
    /// Anything else.
    Internal,
}

/// A failed coordinator operation: its kind and a message for people.
#[derive(Clone, Debug, PartialEq, Eq)]
pub struct Fault {
    pub kind: ErrorKind,
    pub message: String,
}

/// Status code for an argument the coordinator cannot accept.
pub const CODE_INVALID_ARGUMENT: i32 = 3;

/// Status code for a missing entity.
pub const CODE_NOT_FOUND: i32 = 5;

/// Status code for an entity that is already there.
pub const CODE_ALREADY_EXISTS: i32 = 6;

/// Status code for a failure inside the coordinator.
pub const CODE_INTERNAL: i32 = 13;

/// Status code for a coordinator that cannot be reached.
pub const CODE_UNAVAILABLE: i32 = 14;

impl ErrorKind {
    /// The status code that carries this kind on the wire.
    pub open spec fn spec_code(self) -> i32 {
        match self {
            ErrorKind::NotFound => CODE_NOT_FOUND,
            ErrorKind::AlreadyExists => CODE_ALREADY_EXISTS,
            ErrorKind::MalformedStream => CODE_INVALID_ARGUMENT,
            ErrorKind::UnknownNode => CODE_INVALID_ARGUMENT,
            ErrorKind::JoinFailed => CODE_INTERNAL,
            ErrorKind::CoordinatorUnreachable => CODE_UNAVAILABLE,
            ErrorKind::Internal => CODE_INTERNAL,
        }
    }

    /// The kind that a status code stands for. Codes the coordinator never
    /// sends are read as `Internal`.
    pub open spec fn spec_from_code(code: i32) -> ErrorKind {
        if code == CODE_NOT_FOUND {
            ErrorKind::NotFound
        } else if code == CODE_ALREADY_EXISTS {
            ErrorKind::AlreadyExists
        } else if code == CODE_INVALID_ARGUMENT {
            ErrorKind::MalformedStream
        } else if code == CODE_UNAVAILABLE {
            ErrorKind::CoordinatorUnreachable
        } else {
            ErrorKind::Internal
        }
    }

    /// True for the kinds that a status code carries without loss.
    pub open spec fn on_wire(self) -> bool {
        self != ErrorKind::UnknownNode && self != ErrorKind::JoinFailed
    }

    #[verifier::when_used_as_spec(spec_code)]
    pub fn code(self) -> (code: i32)
        ensures
            code == self.spec_code(),
    {
        match self {
            ErrorKind::NotFound => CODE_NOT_FOUND,
            ErrorKind::AlreadyExists => CODE_ALREADY_EXISTS,
            ErrorKind::MalformedStream => CODE_INVALID_ARGUMENT,
            ErrorKind::UnknownNode => CODE_INVALID_ARGUMENT,
            ErrorKind::JoinFailed => CODE_INTERNAL,
            ErrorKind::CoordinatorUnreachable => CODE_UNAVAILABLE,
            ErrorKind::Internal => CODE_INTERNAL,
        }
    }

    #[verifier::when_used_as_spec(spec_from_code)]
    pub fn from_code(code: i32) -> (kind: ErrorKind)
        ensures
            kind == ErrorKind::spec_from_code(code),
    {
        if code == CODE_NOT_FOUND {
            ErrorKind::NotFound
        } else if code == CODE_ALREADY_EXISTS {
            ErrorKind::AlreadyExists
        } else if code == CODE_INVALID_ARGUMENT {
            ErrorKind::MalformedStream
        } else if code == CODE_UNAVAILABLE {
            ErrorKind::CoordinatorUnreachable
        } else {
            ErrorKind::Internal
        }
    }

    /// A kind that goes over the wire comes back as itself.
    pub proof fn lemma_code_round_trip(self)
        requires
            self.on_wire(),
        ensures
            ErrorKind::spec_from_code(self.spec_code()) == self,
    {
    }
}

impl View for Fault {
    type V = (ErrorKind, Seq<char>);

    open spec fn view(&self) -> (ErrorKind, Seq<char>) {
        (self.kind, self.message@)
    }
}

impl Fault {
    /// A fault of the given kind with the given message.
    pub fn new(kind: ErrorKind, message: &str) -> (fault: Fault)
        ensures
            fault.kind == kind,
            fault.message@ == message@,
    {
        Fault { kind, message: String::from_str(message) }
    }

    /// The fault that a status code and its message stand for.
    pub fn from_status(code: i32, message: String) -> (fault: Fault)
        ensures
            fault.kind == ErrorKind::spec_from_code(code),
            fault.message == message,
    {
        Fault { kind: ErrorKind::from_code(code), message }
    }
}

} // verus!
