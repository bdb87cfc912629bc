//! The node: a read-through, write-through cache in front of the coordinator.
//!
//! A node operation is a short conversation with the coordinator. The node
//! does not talk itself: each operation returns a [`Step`], which is either
//! done or names the request to send and what the node waits for. The caller
//! sends the request and hands the reply to [`Local::resume`], until the step
//! is done. [`resume`] is the whole protocol as a function of the cache, what
//! is pending and the reply.
use crate::buffer::{as_slice, contents, from_vec, holds, len, to_vec};
use crate::error::{ErrorKind, Fault};
use crate::frame::{carried, emit, is_oversize, malformed, oversize_len, receive, stream};
use crate::table::Table;
use crate::wire::{Answer, Call, Reply, Request};
use crate::DstoreError;
use crate::MAX_BYTE_SIZE;
use bytes::Bytes;
use vstd::prelude::*;
use vstd::slice::slice_to_vec;
use vstd::string::StringExecFns;
use vstd::utf8::encode_utf8;

verus! {

/// What an operation waits for while a request is with the coordinator.
#[derive(Clone, Debug)]
pub enum Pending {
    /// An insert asked whether the coordinator has the key.
    InsertProbe { key: Bytes, value: Bytes, streamed: bool },
    /// An insert found the key taken and reads its value through.
    InsertRead { key: Bytes },
    /// An insert wrote the mapping to the coordinator.
    InsertWrite { key: Bytes, value: Bytes },
    /// A get asked whether the coordinator has the key.
    GetProbe { key: Bytes },
    /// A get reads the value through.
    GetRead { key: Bytes },
    /// A remove was sent to the coordinator.
    Remove { key: Bytes },
    /// A drain asked for the next key to evict.
    Drain,
}

/// How an operation ended well.
#[derive(Clone, Debug)]
pub enum Success {
    /// The mapping is at the coordinator and in the cache.
    Stored,
    /// The value under the key; `fetched` when it came from the coordinator
    /// and not from the cache.
    Value { value: Bytes, fetched: bool },
    /// The coordinator removed the mapping, and the cache held it.
    Removed,
    /// The cache has evicted every key that the coordinator listed.
    Drained,
}

/// Where a remove found the key missing.
#[derive(Clone, Copy, Debug, PartialEq, Eq, Structural)]
pub enum Missing {
    /// The coordinator had no mapping for the key.
    Coordinator,
    /// The cache did not hold the key.
    Local,
    /// Neither side had the key.
    Both,
}

/// How an operation failed.
#[derive(Clone, Debug)]
pub enum Failure {
    /// The cache already holds the key.
    KeyOccupied,
    /// The coordinator already holds the key; the cache now holds its value.
    KeyOccupiedLocalRefreshed,
    /// The coordinator has no value under the key.
    NotFound,
    /// The coordinator failed, or answered what was not asked.
    Coordinator(Fault),
    /// A remove found the key missing at the coordinator, in the cache, or
    /// both.
    Partial(Missing),
}

/// What to do next in an operation.
#[derive(Debug)]
pub enum Step {
    /// Send the request and resume with the reply.
    Call(Request, Pending),
    /// The operation is over.
    Done(Result<Success, Failure>),
}

/// [`Pending`] as a mathematical value.
pub enum PendingView {
    InsertProbe { key: Seq<u8>, value: Seq<u8>, streamed: bool },
    InsertRead { key: Seq<u8> },
    InsertWrite { key: Seq<u8>, value: Seq<u8> },
    GetProbe { key: Seq<u8> },
    GetRead { key: Seq<u8> },
    Remove { key: Seq<u8> },
    Drain,
}

/// [`Success`] as a mathematical value.
pub enum SuccessView {
    Stored,
    Value { value: Seq<u8>, fetched: bool },
    Removed,
    Drained,
}

/// [`Failure`] as a mathematical value.
pub enum FailureView {
    KeyOccupied,
    KeyOccupiedLocalRefreshed,
    NotFound,
    Coordinator(ErrorKind, Seq<char>),
    Partial(Missing),
}

/// [`Step`] as a mathematical value.
pub enum StepView {
    Call(Call, PendingView),
    Done(Result<SuccessView, FailureView>),
}

impl View for Pending {
    type V = PendingView;

    open spec fn view(&self) -> PendingView {
        match *self {
            Pending::InsertProbe { key, value, streamed } => PendingView::InsertProbe {
                key: contents(key),
                value: contents(value),
                streamed,
            },
            Pending::InsertRead { key } => PendingView::InsertRead { key: contents(key) },
            Pending::InsertWrite { key, value } => PendingView::InsertWrite {
                key: contents(key),
                value: contents(value),
            },
            Pending::GetProbe { key } => PendingView::GetProbe { key: contents(key) },
            Pending::GetRead { key } => PendingView::GetRead { key: contents(key) },
            Pending::Remove { key } => PendingView::Remove { key: contents(key) },
            Pending::Drain => PendingView::Drain,
        }
    }
}

impl View for Success {
    type V = SuccessView;

    open spec fn view(&self) -> SuccessView {
        match *self {
            Success::Stored => SuccessView::Stored,
            Success::Value { value, fetched } => SuccessView::Value { value: contents(value), fetched },
            Success::Removed => SuccessView::Removed,
            Success::Drained => SuccessView::Drained,
        }
    }
}

impl View for Failure {
    type V = FailureView;

    open spec fn view(&self) -> FailureView {
        match *self {
            Failure::KeyOccupied => FailureView::KeyOccupied,
            Failure::KeyOccupiedLocalRefreshed => FailureView::KeyOccupiedLocalRefreshed,
            Failure::NotFound => FailureView::NotFound,
            Failure::Coordinator(fault) => FailureView::Coordinator(fault.kind, fault.message@),
            Failure::Partial(missing) => FailureView::Partial(missing),
        }
    }
}

impl View for Step {
    type V = StepView;

    open spec fn view(&self) -> StepView {
        match *self {
            Step::Call(request, pending) => StepView::Call(request@, pending@),
            Step::Done(Ok(success)) => StepView::Done(Ok(success@)),
            Step::Done(Err(failure)) => StepView::Done(Err(failure@)),
        }
    }
}

/// True when a size as the coordinator reports it is more than one frame
/// holds. A size that reads as negative stands for a length beyond the
/// field's range.
pub open spec fn oversize(size: i32) -> bool {
    size < 0 || size > MAX_BYTE_SIZE
}

/// The request that reads the value under `key` through: a stream when the
/// reported size is more than one frame holds, else whole.
pub open spec fn read_call(key: Seq<u8>, size: i32) -> Call {
    if oversize(size) {
        Call::PullFile(key)
    } else {
        Call::Pull(key)
    }
}

/// The request that writes the mapping: a stream of frames or one message.
pub open spec fn write_call(key: Seq<u8>, value: Seq<u8>, streamed: bool) -> Call {
    if streamed {
        Call::PushFile(stream(key, value))
    } else {
        Call::Push(key, value)
    }
}

/// The fault for a join that the coordinator did not accept.
pub open spec fn join_failed() -> (ErrorKind, Seq<char>) {
    (ErrorKind::JoinFailed, "Couldn't join cluster"@)
}

/// The fault for a reply that does not fit the request.
pub open spec fn unexpected() -> (ErrorKind, Seq<char>) {
    (ErrorKind::Internal, "Unexpected reply"@)
}

/// The fault for a stream that carries another key than the one asked for.
pub open spec fn misdirected() -> (ErrorKind, Seq<char>) {
    (ErrorKind::Internal, "Stream for another key"@)
}

/// The value that the reply to a read of `key` delivers, or the fault it
/// amounts to.
pub open spec fn delivered(key: Seq<u8>, answer: Answer) -> Result<Seq<u8>, (ErrorKind, Seq<char>)> {
    match answer {
        Answer::Byte(value) => Ok(value),
        Answer::Stream(frames) => match carried(frames) {
            Some((name, value)) => if name == key {
                Ok(value)
            } else {
                Err(misdirected())
            },
            None => Err(malformed()),
        },
        Answer::Failed(kind, text) => Err((kind, text)),
        _ => Err(unexpected()),
    }
}

/// How a get fails on a fault of the coordinator: not-found is passed on as
/// such, anything else is a coordinator error.
pub open spec fn get_failure(fault: (ErrorKind, Seq<char>)) -> FailureView {
    if fault.0 == ErrorKind::NotFound {
        FailureView::NotFound
    } else {
        FailureView::Coordinator(fault.0, fault.1)
    }
}

/// How a remove ends, given whether the coordinator removed the mapping and
/// whether the cache holds the key.
pub open spec fn removal(removed: bool, cached: bool) -> Result<SuccessView, FailureView> {
    if removed && cached {
        Ok(SuccessView::Removed)
    } else if cached {
        Err(FailureView::Partial(Missing::Coordinator))
    } else if removed {
        Err(FailureView::Partial(Missing::Local))
    } else {
        Err(FailureView::Partial(Missing::Both))
    }
}

/// The message that goes with a success.
pub open spec fn success_text(success: SuccessView) -> Seq<char> {
    match success {
        SuccessView::Stored => "Database updated"@,
        SuccessView::Value { value, fetched } => if fetched {
            "Updated Local"@
        } else {
            ""@
        },
        SuccessView::Removed => "Mappings removed"@,
        SuccessView::Drained => ""@,
    }
}

/// The message that goes with a failure.
pub open spec fn failure_text(failure: FailureView) -> Seq<char> {
    match failure {
        FailureView::KeyOccupied => "Key occupied!"@,
        FailureView::KeyOccupiedLocalRefreshed => "Local updated, Key occupied!"@,
        FailureView::NotFound => "Key-Value mapping doesn't exist"@,
        FailureView::Coordinator(_, text) => "Global: "@ + text,
        FailureView::Partial(Missing::Coordinator) => "Key missing from global!"@,
        FailureView::Partial(Missing::Local) => "Key missing from local!"@,
        FailureView::Partial(Missing::Both) => "Key missing from global and local!"@,
    }
}

/// True for the failures that the coordinator's side gives rise to; the
/// others arise in the node's own cache.
pub open spec fn coordinator_side(failure: FailureView) -> bool {
    match failure {
        FailureView::KeyOccupied => false,
        FailureView::Partial(Missing::Local) => false,
        _ => true,
    }
}

/// The first step of an insert: refused when the cache holds the key, else
/// the coordinator is asked whether it has it.
pub open spec fn begin_insert(
    cache: Map<Seq<u8>, Seq<u8>>,
    key: Seq<u8>,
    value: Seq<u8>,
    streamed: bool,
) -> StepView {
    if cache.contains_key(key) {
        StepView::Done(Err(FailureView::KeyOccupied))
    } else {
        StepView::Call(Call::Contains(key), PendingView::InsertProbe { key, value, streamed })
    }
}

/// The first step of a get: answered from the cache when it holds the key,
/// else the given request goes out.
pub open spec fn begin_get(
    cache: Map<Seq<u8>, Seq<u8>>,
    key: Seq<u8>,
    call: Call,
    pending: PendingView,
) -> StepView {
    if cache.contains_key(key) {
        StepView::Done(Ok(SuccessView::Value { value: cache[key], fetched: false }))
    } else {
        StepView::Call(call, pending)
    }
}

/// The node's protocol: from the cache, the node's identity, what is pending
/// and the coordinator's answer to the cache afterwards and the next step.
pub open spec fn resume(
    cache: Map<Seq<u8>, Seq<u8>>,
    id: Seq<u8>,
    pending: PendingView,
    answer: Answer,
) -> (Map<Seq<u8>, Seq<u8>>, StepView) {
    match pending {
        PendingView::InsertProbe { key, value, streamed } => match answer {
            Answer::Size(size) => (
                cache,
                StepView::Call(read_call(key, size), PendingView::InsertRead { key }),
            ),
            Answer::Failed(_, _) => (
                cache,
                StepView::Call(
                    write_call(key, value, streamed),
                    PendingView::InsertWrite { key, value },
                ),
            ),
            _ => (cache, StepView::Done(Err(FailureView::Coordinator(unexpected().0, unexpected().1)))),
        },
        PendingView::InsertRead { key } => match delivered(key, answer) {
            Ok(value) => (
                cache.insert(key, value),
                StepView::Done(Err(FailureView::KeyOccupiedLocalRefreshed)),
            ),
            Err(fault) => (cache, StepView::Done(Err(FailureView::Coordinator(fault.0, fault.1)))),
        },
        PendingView::InsertWrite { key, value } => match answer {
            Answer::Null => (cache.insert(key, value), StepView::Done(Ok(SuccessView::Stored))),
            Answer::Failed(kind, text) => (
                cache,
                StepView::Done(Err(FailureView::Coordinator(kind, text))),
            ),
            _ => (cache, StepView::Done(Err(FailureView::Coordinator(unexpected().0, unexpected().1)))),
        },
        PendingView::GetProbe { key } => match answer {
            Answer::Size(size) => (
                cache,
                StepView::Call(read_call(key, size), PendingView::GetRead { key }),
            ),
            Answer::Failed(kind, text) => (cache, StepView::Done(Err(get_failure((kind, text))))),
            _ => (cache, StepView::Done(Err(FailureView::Coordinator(unexpected().0, unexpected().1)))),
        },
        PendingView::GetRead { key } => match delivered(key, answer) {
            Ok(value) => (
                cache.insert(key, value),
                StepView::Done(Ok(SuccessView::Value { value, fetched: true })),
            ),
            Err(fault) => (cache, StepView::Done(Err(get_failure(fault)))),
        },
        PendingView::Remove { key } => (
            cache,
            StepView::Done(removal(!(answer is Failed), cache.contains_key(key))),
        ),
        PendingView::Drain => match answer {
            Answer::Byte(key) => (
                cache.remove(key),
                StepView::Call(Call::Update(id), PendingView::Drain),
            ),
            _ => (cache, StepView::Done(Ok(SuccessView::Drained))),
        },
    }
}

/// True when `size`, as the coordinator reports it, is more than one frame
/// holds.
pub fn is_oversize_field(size: i32) -> (big: bool)
    ensures
        big == oversize(size),
{
    size < 0 || size as usize > MAX_BYTE_SIZE
}

fn read_request(key: &Bytes, size: i32) -> (request: Request)
    ensures
        request@ == read_call(contents(*key), size),
{
    if is_oversize_field(size) {
        Request::PullFile(to_vec(key))
    } else {
        Request::Pull(to_vec(key))
    }
}

fn write_request(key: &Bytes, value: &Bytes, streamed: bool) -> (request: Request)
    ensures
        request@ == write_call(contents(*key), contents(*value), streamed),
{
    if streamed {
        Request::PushFile(emit(as_slice(key), as_slice(value)))
    } else {
        Request::Push(to_vec(key), to_vec(value))
    }
}

fn unexpected_reply() -> (failure: Failure)
    ensures
        failure@ == FailureView::Coordinator(unexpected().0, unexpected().1),
{
    Failure::Coordinator(Fault::new(ErrorKind::Internal, "Unexpected reply"))
}

fn failed_get(fault: Fault) -> (failure: Failure)
    ensures
        failure@ == get_failure(fault@),
{
    match fault.kind {
        ErrorKind::NotFound => Failure::NotFound,
        _ => Failure::Coordinator(fault),
    }
}

/// Reads the value out of the reply to a read of `key`.
fn deliver(key: &Bytes, reply: Reply) -> (r: Result<Bytes, Fault>)
    ensures
        match delivered(contents(*key), reply@) {
            Ok(value) => r matches Ok(b) && contents(b) == value,
            Err(fault) => r matches Err(f) && f@ == fault,
        },
{
    match reply {
        Reply::Byte(body) => Ok(from_vec(body)),
        Reply::Stream(frames) => match receive(&frames) {
            Ok((name, value)) => {
                if holds(key, name.as_slice()) {
                    Ok(from_vec(value))
                } else {
                    Err(Fault::new(ErrorKind::Internal, "Stream for another key"))
                }
            },
            Err(fault) => Err(fault),
        },
        Reply::Failed(fault) => Err(fault),
        _ => Err(Fault::new(ErrorKind::Internal, "Unexpected reply")),
    }
}

impl Success {
    /// The message that goes with this success.
    pub fn message(&self) -> (text: &'static str)
        ensures
            text@ == success_text(self@),
    {
        match self {
            Success::Stored => "Database updated",
            Success::Value { value: _, fetched } => if *fetched {
                "Updated Local"
            } else {
                ""
            },
            Success::Removed => "Mappings removed",
            Success::Drained => "",
        }
    }
}

impl Failure {
    /// True when the failure arose on the coordinator's side.
    pub fn from_coordinator(&self) -> (there: bool)
        ensures
            there == coordinator_side(self@),
    {
        match self {
            Failure::KeyOccupied => false,
            Failure::Partial(Missing::Local) => false,
            _ => true,
        }
    }

    /// The failure as an error with its message.
    pub fn to_error(&self) -> (error: DstoreError)
        ensures
            error.0@ == failure_text(self@),
    {
        match self {
            Failure::KeyOccupied => DstoreError(String::from_str("Key occupied!")),
            Failure::KeyOccupiedLocalRefreshed => DstoreError(
                String::from_str("Local updated, Key occupied!"),
            ),
            Failure::NotFound => DstoreError(String::from_str("Key-Value mapping doesn't exist")),
            Failure::Coordinator(fault) => DstoreError(
                String::from_str("Global: ").concat(fault.message.as_str()),
            ),
            Failure::Partial(Missing::Coordinator) => DstoreError(
                String::from_str("Key missing from global!"),
            ),
            Failure::Partial(Missing::Local) => DstoreError(
                String::from_str("Key missing from local!"),
            ),
            Failure::Partial(Missing::Both) => DstoreError(
                String::from_str("Key missing from global and local!"),
            ),
        }
    }
}

/// A node: its cache and its identity.
pub struct Local {
    /// What the node has cached of the coordinator's store.
    db: Table,
    /// The node's identity, by convention its address.
    pub addr: String,
}

impl Local {
    /// The cache as a map from keys to values.
    pub closed spec fn cache(&self) -> Map<Seq<u8>, Seq<u8>> {
        self.db@
    }

    /// The node's address: the text of `addr`.
    pub closed spec fn address(&self) -> Seq<char> {
        self.addr@
    }

    /// The node's identity as the coordinator sees it: the bytes of its
    /// address.
    pub open spec fn id(&self) -> Seq<u8> {
        encode_utf8(self.address())
    }

    /// The request by which a node with the address `local_addr` joins.
    pub fn join(local_addr: &str) -> (request: Request)
        ensures
            request@ == Call::Join(encode_utf8(local_addr@)),
    {
        Request::Join(slice_to_vec(local_addr.as_bytes()))
    }

    /// The node with the address `local_addr` and an empty cache, given the
    /// coordinator's reply to its join. A failed join makes no node.
    pub fn new(local_addr: &str, joined: &Reply) -> (r: Result<Local, Fault>)
        ensures
            match r {
                Ok(node) => !(joined@ is Failed) && node.address() == local_addr@ && node.cache()
                    == Map::<Seq<u8>, Seq<u8>>::empty(),
                Err(fault) => joined@ is Failed && fault@ == join_failed(),
            },
    {
        match joined {
            Reply::Failed(_) => Err(Fault::new(ErrorKind::JoinFailed, "Couldn't join cluster")),
            _ => Ok(Local { db: Table::new(), addr: String::from_str(local_addr) }),
        }
    }

    /// Starts a drain: asks the coordinator for the first key to evict.
    pub fn update(&self) -> (step: Step)
        ensures
            step@ == StepView::Call(Call::Update(self.id()), PendingView::Drain),
    {
        Step::Call(Request::Update(slice_to_vec(self.addr.as_str().as_bytes())), Pending::Drain)
    }

    /// Starts an insert, written whole or as a stream as the value's size
    /// asks for.
    pub fn insert(&self, key: Bytes, value: Bytes) -> (step: Step)
        ensures
            step@ == begin_insert(
                self.cache(),
                contents(key),
                contents(value),
                oversize_len(contents(value).len()),
            ),
    {
        if is_oversize(len(&value)) {
            self.insert_file(key, value)
        } else {
            self.insert_single(key, value)
        }
    }

    /// Starts an insert that writes the value as one message.
    pub fn insert_single(&self, key: Bytes, value: Bytes) -> (step: Step)
        ensures
            step@ == begin_insert(self.cache(), contents(key), contents(value), false),
    {
        self.start_insert(key, value, false)
    }

    /// Starts an insert that writes the value as a stream of frames.
    pub fn insert_file(&self, key: Bytes, value: Bytes) -> (step: Step)
        ensures
            step@ == begin_insert(self.cache(), contents(key), contents(value), true),
    {
        self.start_insert(key, value, true)
    }

    fn start_insert(&self, key: Bytes, value: Bytes, streamed: bool) -> (step: Step)
        ensures
            step@ == begin_insert(self.cache(), contents(key), contents(value), streamed),
    {
        if self.db.contains_key(as_slice(&key)) {
            Step::Done(Err(Failure::KeyOccupied))
        } else {
            Step::Call(Request::Contains(to_vec(&key)), Pending::InsertProbe { key, value, streamed })
        }
    }

    /// Starts a get: from the cache, or by asking the coordinator for the
    /// value's size.
    pub fn get(&self, key: &Bytes) -> (step: Step)
        ensures
            step@ == begin_get(
                self.cache(),
                contents(*key),
                Call::Contains(contents(*key)),
                PendingView::GetProbe { key: contents(*key) },
            ),
    {
        match self.db.get(as_slice(key)) {
            Some(value) => Step::Done(Ok(Success::Value { value: value.clone(), fetched: false })),
            None => Step::Call(Request::Contains(to_vec(key)), Pending::GetProbe { key: key.clone() }),
        }
    }

    /// Starts a get that reads the value as one message.
    pub fn get_single(&self, key: &Bytes) -> (step: Step)
        ensures
            step@ == begin_get(
                self.cache(),
                contents(*key),
                Call::Pull(contents(*key)),
                PendingView::GetRead { key: contents(*key) },
            ),
    {
        match self.db.get(as_slice(key)) {
            Some(value) => Step::Done(Ok(Success::Value { value: value.clone(), fetched: false })),
            None => Step::Call(Request::Pull(to_vec(key)), Pending::GetRead { key: key.clone() }),
        }
    }

    /// Starts a get that reads the value as a stream of frames.
    pub fn get_file(&self, key: &Bytes) -> (step: Step)
        ensures
            step@ == begin_get(
                self.cache(),
                contents(*key),
                Call::PullFile(contents(*key)),
                PendingView::GetRead { key: contents(*key) },
            ),
    {
        match self.db.get(as_slice(key)) {
            Some(value) => Step::Done(Ok(Success::Value { value: value.clone(), fetched: false })),
            None => Step::Call(Request::PullFile(to_vec(key)), Pending::GetRead { key: key.clone() }),
        }
    }

    /// Starts a remove: the coordinator is asked first. The cache is left as
    /// it is; the key leaves it with the next drain.
    pub fn remove(&self, key: &Bytes) -> (step: Step)
        ensures
            step@ == StepView::Call(
                Call::Remove(contents(*key)),
                PendingView::Remove { key: contents(*key) },
            ),
    {
        Step::Call(Request::Remove(to_vec(key)), Pending::Remove { key: key.clone() })
    }

    /// Takes an operation one step further with the coordinator's reply.
    pub fn resume(&mut self, pending: Pending, reply: Reply) -> (step: Step)
        ensures
            (final(self).cache(), step@) == resume(
                old(self).cache(),
                old(self).id(),
                pending@,
                reply@,
            ),
            final(self).address() == old(self).address(),
    {
        match pending {
            Pending::InsertProbe { key, value, streamed } => match reply {
                Reply::Size(size) => {
                    let request = read_request(&key, size);
                    Step::Call(request, Pending::InsertRead { key })
                },
                Reply::Failed(_) => {
                    let request = write_request(&key, &value, streamed);
                    Step::Call(request, Pending::InsertWrite { key, value })
                },
                _ => Step::Done(Err(unexpected_reply())),
            },
            Pending::InsertRead { key } => match deliver(&key, reply) {
                Ok(value) => {
                    self.db.insert(key, value);
                    Step::Done(Err(Failure::KeyOccupiedLocalRefreshed))
                },
                Err(fault) => Step::Done(Err(Failure::Coordinator(fault))),
            },
            Pending::InsertWrite { key, value } => match reply {
                Reply::Null => {
                    self.db.insert(key, value);
                    Step::Done(Ok(Success::Stored))
                },
                Reply::Failed(fault) => Step::Done(Err(Failure::Coordinator(fault))),
                _ => Step::Done(Err(unexpected_reply())),
            },
            Pending::GetProbe { key } => match reply {
                Reply::Size(size) => {
                    let request = read_request(&key, size);
                    Step::Call(request, Pending::GetRead { key })
                },
                Reply::Failed(fault) => Step::Done(Err(failed_get(fault))),
                _ => Step::Done(Err(unexpected_reply())),
            },
            Pending::GetRead { key } => match deliver(&key, reply) {
                Ok(value) => {
                    let handed = value.clone();
                    self.db.insert(key, value);
                    Step::Done(Ok(Success::Value { value: handed, fetched: true }))
                },
                Err(fault) => Step::Done(Err(failed_get(fault))),
            },
            Pending::Remove { key } => {
                let removed = match reply {
                    Reply::Failed(_) => false,
                    _ => true,
                };
                let cached = self.db.contains_key(as_slice(&key));
                if removed && cached {
                    Step::Done(Ok(Success::Removed))
                } else if cached {
                    Step::Done(Err(Failure::Partial(Missing::Coordinator)))
                } else if removed {
                    Step::Done(Err(Failure::Partial(Missing::Local)))
                } else {
                    Step::Done(Err(Failure::Partial(Missing::Both)))
                }
            },
            Pending::Drain => match reply {
                Reply::Byte(key) => {
                    self.db.remove(key.as_slice());
                    self.update()
                },
                _ => Step::Done(Ok(Success::Drained)),
            },
        }
    }
}

} // verus!
