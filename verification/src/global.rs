//! The coordinator: the authoritative key-value store, one invalidation
//! sequence per registered node, and the named task queues.
//!
//! [`State`] is the coordinator as a mathematical value, with one function
//! for what each request answers and one for the state it leaves. [`Global`]
//! is the executable coordinator; every operation is specified against
//! [`State`].
use crate::buffer::{as_slice, from_vec, len, to_vec};
use crate::error::{ErrorKind, Fault};
use crate::frame::{bodies, carried, emit, malformed, receive, stream};
use crate::lanes::{with_back, Lanes};
use crate::table::Table;
use crate::wire::{Answer, Call, Reply, Request};
use vstd::prelude::*;

verus! {

/// The coordinator's three mappings.
pub struct State {
    /// Key to value.
    pub store: Map<Seq<u8>, Seq<u8>>,
    /// Node identity to the keys that the node has yet to evict, oldest first.
    pub invalidations: Map<Seq<u8>, Seq<Seq<u8>>>,
    /// Queue name to the values waiting in it, oldest first.
    pub queues: Map<Seq<u8>, Seq<Seq<u8>>>,
}

/// A length as the size field of a reply carries it: lengths beyond the
/// field's range are reported as its largest value.
pub open spec fn wire_size(len: nat) -> i32 {
    if len > i32::MAX {
        i32::MAX
    } else {
        len as i32
    }
}

/// The answer to asking for the size of a value that is not there.
pub open spec fn no_value() -> Answer {
    Answer::Failed(ErrorKind::NotFound, "Value doesn't exist"@)
}

/// The answer to pushing a key that is already mapped.
pub open spec fn key_in_use() -> Answer {
    Answer::Failed(ErrorKind::AlreadyExists, "Key already in use"@)
}

/// The answer to pulling a key that is not mapped.
pub open spec fn no_mapping() -> Answer {
    Answer::Failed(ErrorKind::NotFound, "Mapping doesn't exist"@)
}

/// The answer to removing a key that is not mapped.
pub open spec fn not_removed() -> Answer {
    Answer::Failed(ErrorKind::NotFound, "Couldn't remove key"@)
}

/// The answer to an update from a node that never joined.
pub open spec fn unknown_node() -> Answer {
    Answer::Failed(ErrorKind::UnknownNode, "Node never joined"@)
}

/// The answer to an update when the node has nothing left to evict.
pub open spec fn nothing_to_evict() -> Answer {
    Answer::Failed(ErrorKind::NotFound, "Nothing to invalidate"@)
}

/// The answer to taking from a queue that is empty or was never made.
pub open spec fn queue_empty() -> Answer {
    Answer::Failed(ErrorKind::NotFound, "Queue is empty"@)
}

/// The answer to a stream without frames.
pub open spec fn bad_stream() -> Answer {
    Answer::Failed(malformed().0, malformed().1)
}

impl State {
    /// The coordinator before any request.
    pub open spec fn empty() -> State {
        State { store: Map::empty(), invalidations: Map::empty(), queues: Map::empty() }
    }

    /// True when the node `id` has joined.
    pub open spec fn registered(self, id: Seq<u8>) -> bool {
        self.invalidations.contains_key(id)
    }

    /// The values waiting in the queue `name`; none if it was never made.
    pub open spec fn queue(self, name: Seq<u8>) -> Seq<Seq<u8>> {
        if self.queues.contains_key(name) {
            self.queues[name]
        } else {
            Seq::empty()
        }
    }

    /// After `join`: the node has an empty invalidation sequence, whether or
    /// not it had joined before.
    pub open spec fn join(self, id: Seq<u8>) -> State {
        State { invalidations: self.invalidations.insert(id, Seq::empty()), ..self }
    }

    /// What `contains` answers: the size of the value, or not-found.
    pub open spec fn contains_answer(self, key: Seq<u8>) -> Answer {
        if self.store.contains_key(key) {
            Answer::Size(wire_size(self.store[key].len()))
        } else {
            no_value()
        }
    }

    /// After `push`: the key is mapped to the value if it was not mapped.
    pub open spec fn push(self, key: Seq<u8>, value: Seq<u8>) -> State {
        if self.store.contains_key(key) {
            self
        } else {
            State { store: self.store.insert(key, value), ..self }
        }
    }

    /// What `push` answers: already-exists for a mapped key.
    pub open spec fn push_answer(self, key: Seq<u8>) -> Answer {
        if self.store.contains_key(key) {
            key_in_use()
        } else {
            Answer::Null
        }
    }

    /// After `push_file`: as after `push` of what the stream carries; an
    /// empty stream changes nothing.
    pub open spec fn push_file(self, frames: Seq<Seq<u8>>) -> State {
        match carried(frames) {
            Some((key, value)) => self.push(key, value),
            None => self,
        }
    }

    /// What `push_file` answers: malformed-stream for an empty stream, else
    /// what `push` answers for the key in the first frame.
    pub open spec fn push_file_answer(self, frames: Seq<Seq<u8>>) -> Answer {
        match carried(frames) {
            Some((key, value)) => self.push_answer(key),
            None => bad_stream(),
        }
    }

    /// What `pull` answers: the value, or not-found.
    pub open spec fn pull_answer(self, key: Seq<u8>) -> Answer {
        if self.store.contains_key(key) {
            Answer::Byte(self.store[key])
        } else {
            no_mapping()
        }
    }

    /// What `pull_file` answers: the stream that carries the value under the
    /// key, or not-found.
    pub open spec fn pull_file_answer(self, key: Seq<u8>) -> Answer {
        if self.store.contains_key(key) {
            Answer::Stream(stream(key, self.store[key]))
        } else {
            no_mapping()
        }
    }

    /// After `remove`: the key is appended to the invalidation sequence of
    /// every registered node, and is not mapped.
    pub open spec fn remove(self, key: Seq<u8>) -> State {
        State {
            store: self.store.remove(key),
            invalidations: self.invalidations.map_values(with_back(key)),
            ..self
        }
    }

    /// What `remove` answers: not-found for a key that was not mapped.
    pub open spec fn remove_answer(self, key: Seq<u8>) -> Answer {
        if self.store.contains_key(key) {
            Answer::Null
        } else {
            not_removed()
        }
    }

    /// After `update`: the node's invalidation sequence has lost its head, if
    /// it had one.
    pub open spec fn update(self, id: Seq<u8>) -> State {
        if self.registered(id) && self.invalidations[id].len() > 0 {
            State {
                invalidations: self.invalidations.insert(id, self.invalidations[id].drop_first()),
                ..self
            }
        } else {
            self
        }
    }

    /// What `update` answers: the head of the node's invalidation sequence;
    /// not-found when the sequence is empty; unknown-node when the node never
    /// joined.
    pub open spec fn update_answer(self, id: Seq<u8>) -> Answer {
        if !self.registered(id) {
            unknown_node()
        } else if self.invalidations[id].len() == 0 {
            nothing_to_evict()
        } else {
            Answer::Byte(self.invalidations[id][0])
        }
    }

    /// After `en_queue`: the value is at the back of the queue, which is made
    /// if it was not there.
    pub open spec fn en_queue(self, name: Seq<u8>, value: Seq<u8>) -> State {
        State { queues: self.queues.insert(name, self.queue(name).push(value)), ..self }
    }

    /// After `de_queue`: the queue has lost its head, if it had one.
    pub open spec fn de_queue(self, name: Seq<u8>) -> State {
        if self.queue(name).len() > 0 {
            State { queues: self.queues.insert(name, self.queue(name).drop_first()), ..self }
        } else {
            self
        }
    }

    /// What `de_queue` answers: the head of the queue, or not-found when the
    /// queue is empty or was never made.
    pub open spec fn de_queue_answer(self, name: Seq<u8>) -> Answer {
        if self.queue(name).len() > 0 {
            Answer::Byte(self.queue(name)[0])
        } else {
            queue_empty()
        }
    }

    /// What the coordinator answers to a request.
    pub open spec fn answer(self, call: Call) -> Answer {
        match call {
            Call::Join(id) => Answer::Null,
            Call::Contains(key) => self.contains_answer(key),
            Call::Push(key, value) => self.push_answer(key),
            Call::PushFile(frames) => self.push_file_answer(frames),
            Call::Pull(key) => self.pull_answer(key),
            Call::PullFile(key) => self.pull_file_answer(key),
            Call::Remove(key) => self.remove_answer(key),
            Call::Update(id) => self.update_answer(id),
            Call::EnQueue(name, value) => Answer::Null,
            Call::DeQueue(name) => self.de_queue_answer(name),
        }
    }

    /// The state that a request leaves the coordinator in.
    pub open spec fn next(self, call: Call) -> State {
        match call {
            Call::Join(id) => self.join(id),
            Call::Contains(key) => self,
            Call::Push(key, value) => self.push(key, value),
            Call::PushFile(frames) => self.push_file(frames),
            Call::Pull(key) => self,
            Call::PullFile(key) => self,
            Call::Remove(key) => self.remove(key),
            Call::Update(id) => self.update(id),
            Call::EnQueue(name, value) => self.en_queue(name, value),
            Call::DeQueue(name) => self.de_queue(name),
        }
    }
}

/// The answer that a result without a value stands for.
pub open spec fn done(r: Result<(), Fault>) -> Answer {
    match r {
        Ok(_) => Answer::Null,
        Err(fault) => Answer::Failed(fault.kind, fault.message@),
    }
}

/// The answer that a result with a size stands for.
pub open spec fn sized(r: Result<i32, Fault>) -> Answer {
    match r {
        Ok(size) => Answer::Size(size),
        Err(fault) => Answer::Failed(fault.kind, fault.message@),
    }
}

/// The answer that a result with a key or a value stands for.
pub open spec fn whole(r: Result<Vec<u8>, Fault>) -> Answer {
    match r {
        Ok(body) => Answer::Byte(body@),
        Err(fault) => Answer::Failed(fault.kind, fault.message@),
    }
}

/// The answer that a result with a stream stands for.
pub open spec fn streamed(r: Result<Vec<Vec<u8>>, Fault>) -> Answer {
    match r {
        Ok(frames) => Answer::Stream(bodies(frames@)),
        Err(fault) => Answer::Failed(fault.kind, fault.message@),
    }
}

/// The size field for a value of `len` bytes.
pub fn size_field(len: usize) -> (size: i32)
    ensures
        size == wire_size(len as nat),
{
    if len > i32::MAX as usize {
        i32::MAX
    } else {
        len as i32
    }
}

/// The coordinator.
pub struct Global {
    /// Key to value.
    db: Table,
    /// Node identity to the keys it has yet to evict.
    cluster: Lanes,
    /// Queue name to the values waiting in it.
    queues: Lanes,
}

impl View for Global {
    type V = State;

    closed spec fn view(&self) -> State {
        State { store: self.db@, invalidations: self.cluster@, queues: self.queues@ }
    }
}

impl Global {
    /// A coordinator with nothing stored, no node registered and no queue.
    pub fn new() -> (global: Global)
        ensures
            global@ == State::empty(),
    {
        Global { db: Table::new(), cluster: Lanes::new(), queues: Lanes::new() }
    }

    /// Registers the node `id` with an empty invalidation sequence. A node
    /// that joins again starts over with an empty sequence.
    pub fn join(&mut self, id: Vec<u8>)
        ensures
            final(self)@ == old(self)@.join(id@),
    {
        self.cluster.reset(from_vec(id));
    }

    /// The size in bytes of the value under `key`.
    pub fn contains(&self, key: &[u8]) -> (r: Result<i32, Fault>)
        ensures
            sized(r) == self@.contains_answer(key@),
    {
        match self.db.get(key) {
            Some(value) => Ok(size_field(len(value))),
            None => Err(Fault::new(ErrorKind::NotFound, "Value doesn't exist")),
        }
    }

    /// Maps `key` to `value` unless `key` is mapped already.
    pub fn push(&mut self, key: Vec<u8>, value: Vec<u8>) -> (r: Result<(), Fault>)
        ensures
            done(r) == old(self)@.push_answer(key@),
            final(self)@ == old(self)@.push(key@, value@),
    {
        if self.db.contains_key(key.as_slice()) {
            Err(Fault::new(ErrorKind::AlreadyExists, "Key already in use"))
        } else {
            self.db.insert(from_vec(key), from_vec(value));
            Ok(())
        }
    }

    /// Maps the key in the first frame to the value in the rest, unless the
    /// key is mapped already. The whole stream is put together before the
    /// store is looked at.
    pub fn push_file(&mut self, frames: &Vec<Vec<u8>>) -> (r: Result<(), Fault>)
        ensures
            done(r) == old(self)@.push_file_answer(bodies(frames@)),
            final(self)@ == old(self)@.push_file(bodies(frames@)),
    {
        match receive(frames) {
            Ok((key, value)) => self.push(key, value),
            Err(fault) => Err(fault),
        }
    }

    /// The value under `key`, whole.
    pub fn pull(&self, key: &[u8]) -> (r: Result<Vec<u8>, Fault>)
        ensures
            whole(r) == self@.pull_answer(key@),
    {
        match self.db.get(key) {
            Some(value) => Ok(to_vec(value)),
            None => Err(Fault::new(ErrorKind::NotFound, "Mapping doesn't exist")),
        }
    }

    /// The value under `key`, as the frames of a stream. The value is read
    /// once, when the call is made.
    pub fn pull_file(&self, key: &[u8]) -> (r: Result<Vec<Vec<u8>>, Fault>)
        ensures
            streamed(r) == self@.pull_file_answer(key@),
    {
        match self.db.get(key) {
            Some(value) => Ok(emit(key, as_slice(value))),
            None => Err(Fault::new(ErrorKind::NotFound, "Mapping doesn't exist")),
        }
    }

    /// Appends `key` to the invalidation sequence of every registered node,
    /// then unmaps it. The invalidations stay even when the key was not
    /// mapped.
    pub fn remove(&mut self, key: Vec<u8>) -> (r: Result<(), Fault>)
        ensures
            done(r) == old(self)@.remove_answer(key@),
            final(self)@ == old(self)@.remove(key@),
    {
        let key = from_vec(key);
        self.cluster.push_back_all(&key);
        match self.db.remove(as_slice(&key)) {
            Some(_) => Ok(()),
            None => Err(Fault::new(ErrorKind::NotFound, "Couldn't remove key")),
        }
    }

    /// Takes the next key that the node `id` must evict.
    pub fn update(&mut self, id: &[u8]) -> (r: Result<Vec<u8>, Fault>)
        ensures
            whole(r) == old(self)@.update_answer(id@),
            final(self)@ == old(self)@.update(id@),
    {
        if !self.cluster.contains(id) {
            return Err(Fault::new(ErrorKind::UnknownNode, "Node never joined"));
        }
        match self.cluster.pop_front(id) {
            Some(key) => Ok(to_vec(&key)),
            None => Err(Fault::new(ErrorKind::NotFound, "Nothing to invalidate")),
        }
    }

    /// Appends `value` to the queue `name`, making the queue if need be.
    pub fn en_queue(&mut self, name: Vec<u8>, value: Vec<u8>)
        ensures
            final(self)@ == old(self)@.en_queue(name@, value@),
    {
        self.queues.push_back(from_vec(name), from_vec(value));
    }

    /// Takes the head of the queue `name`.
    pub fn de_queue(&mut self, name: &[u8]) -> (r: Result<Vec<u8>, Fault>)
        ensures
            whole(r) == old(self)@.de_queue_answer(name@),
            final(self)@ == old(self)@.de_queue(name@),
    {
        match self.queues.pop_front(name) {
            Some(value) => Ok(to_vec(&value)),
            None => Err(Fault::new(ErrorKind::NotFound, "Queue is empty")),
        }
    }

    /// Serves one request.
    pub fn serve(&mut self, request: Request) -> (reply: Reply)
        ensures
            reply@ == old(self)@.answer(request@),
            final(self)@ == old(self)@.next(request@),
    {
        match request {
            Request::Join(id) => {
                self.join(id);
                Reply::Null
            },
            Request::Contains(key) => match self.contains(key.as_slice()) {
                Ok(size) => Reply::Size(size),
                Err(fault) => Reply::Failed(fault),
            },
            Request::Push(key, value) => match self.push(key, value) {
                Ok(_) => Reply::Null,
                Err(fault) => Reply::Failed(fault),
            },
            Request::PushFile(frames) => match self.push_file(&frames) {
                Ok(_) => Reply::Null,
                Err(fault) => Reply::Failed(fault),
            },
            Request::Pull(key) => match self.pull(key.as_slice()) {
                Ok(body) => Reply::Byte(body),
                Err(fault) => Reply::Failed(fault),
            },
            Request::PullFile(key) => match self.pull_file(key.as_slice()) {
                Ok(frames) => Reply::Stream(frames),
                Err(fault) => Reply::Failed(fault),
            },
            Request::Remove(key) => match self.remove(key) {
                Ok(_) => Reply::Null,
                Err(fault) => Reply::Failed(fault),
            },
            Request::Update(id) => match self.update(id.as_slice()) {
                Ok(key) => Reply::Byte(key),
                Err(fault) => Reply::Failed(fault),
            },
            Request::EnQueue(name, value) => {
                self.en_queue(name, value);
                Reply::Null
            },
            Request::DeQueue(name) => match self.de_queue(name.as_slice()) {
                Ok(value) => Reply::Byte(value),
                Err(fault) => Reply::Failed(fault),
            },
        }
    }
}

} // verus!
