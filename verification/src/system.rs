//! What holds of a node and the coordinator together, when the node's
//! requests are answered by the coordinator one after the other.
use crate::frame::{lemma_stream_round_trip, oversize_len, stream};
use crate::global::{wire_size, State};
use crate::laws::lemma_remove_reaches_all;
use crate::local::{
    begin_get, begin_insert, oversize, removal, resume, FailureView, PendingView, StepView, SuccessView,
};
use crate::wire::Call;
use vstd::prelude::*;

verus! {

/// An operation of the node `id` run against the coordinator: each request
/// is answered from the coordinator's state and the node resumes with the
/// answer, for at most `fuel` requests. The result is the coordinator's
/// state, the node's cache and the step reached.
pub open spec fn run(
    s: State,
    cache: Map<Seq<u8>, Seq<u8>>,
    id: Seq<u8>,
    step: StepView,
    fuel: nat,
) -> (State, Map<Seq<u8>, Seq<u8>>, StepView)
    decreases fuel,
{
    match step {
        StepView::Call(call, pending) => if fuel == 0 {
            (s, cache, step)
        } else {
            let (after, next) = resume(cache, id, pending, s.answer(call));
            run(s.next(call), after, id, next, (fuel - 1) as nat)
        },
        StepView::Done(_) => (s, cache, step),
    }
}

/// The size that the coordinator reports is over a frame exactly when the
/// value is.
pub proof fn lemma_reported_size(len: nat)
    ensures
        oversize(wire_size(len)) == oversize_len(len),
{
}

/// An insert of a key that neither the cache nor the coordinator holds
/// takes two requests and ends with the mapping in both, whether the value
/// is written whole or as a stream.
pub proof fn lemma_insert_stores(
    s: State,
    cache: Map<Seq<u8>, Seq<u8>>,
    id: Seq<u8>,
    key: Seq<u8>,
    value: Seq<u8>,
    streamed: bool,
    fuel: nat,
)
    requires
        !cache.contains_key(key),
        !s.store.contains_key(key),
        fuel >= 2,
    ensures
        run(s, cache, id, begin_insert(cache, key, value, streamed), fuel) == (
            s.push(key, value),
            cache.insert(key, value),
            StepView::Done(Ok(SuccessView::Stored)),
        ),
{
    lemma_stream_round_trip(key, value);
    reveal_with_fuel(run, 3);
}

/// An insert of a key that the coordinator already holds changes nothing at
/// the coordinator, fails, and leaves the coordinator's value in the cache,
/// whether that value is read whole or as a stream.
pub proof fn lemma_insert_refreshes(
    s: State,
    cache: Map<Seq<u8>, Seq<u8>>,
    id: Seq<u8>,
    key: Seq<u8>,
    value: Seq<u8>,
    streamed: bool,
    fuel: nat,
)
    requires
        !cache.contains_key(key),
        s.store.contains_key(key),
        fuel >= 2,
    ensures
        run(s, cache, id, begin_insert(cache, key, value, streamed), fuel) == (
            s,
            cache.insert(key, s.store[key]),
            StepView::Done(Err(FailureView::KeyOccupiedLocalRefreshed)),
        ),
{
    lemma_stream_round_trip(key, s.store[key]);
    lemma_reported_size(s.store[key].len());
    reveal_with_fuel(run, 3);
}

/// An insert of a key that the cache holds sends nothing and changes
/// nothing.
pub proof fn lemma_insert_occupied(
    s: State,
    cache: Map<Seq<u8>, Seq<u8>>,
    id: Seq<u8>,
    key: Seq<u8>,
    value: Seq<u8>,
    streamed: bool,
    fuel: nat,
)
    requires
        cache.contains_key(key),
    ensures
        run(s, cache, id, begin_insert(cache, key, value, streamed), fuel) == (
            s,
            cache,
            StepView::Done(Err(FailureView::KeyOccupied)),
        ),
{
}

/// A get of a key that the cache holds sends nothing and hands out the
/// cached value.
pub proof fn lemma_get_cached(
    s: State,
    cache: Map<Seq<u8>, Seq<u8>>,
    id: Seq<u8>,
    key: Seq<u8>,
    fuel: nat,
)
    requires
        cache.contains_key(key),
    ensures
        run(
            s,
            cache,
            id,
            begin_get(cache, key, Call::Contains(key), PendingView::GetProbe { key }),
            fuel,
        ) == (
            s,
            cache,
            StepView::Done(Ok(SuccessView::Value { value: cache[key], fetched: false })),
        ),
{
}

/// A get of a key that the cache does not hold reads the coordinator's
/// value through into the cache, whole or as a stream; when the coordinator
/// has no value either, the get fails with not-found and the cache is as
/// before.
pub proof fn lemma_get_reads_through(
    s: State,
    cache: Map<Seq<u8>, Seq<u8>>,
    id: Seq<u8>,
    key: Seq<u8>,
    fuel: nat,
)
    requires
        !cache.contains_key(key),
        fuel >= 2,
    ensures
        s.store.contains_key(key) ==> run(
            s,
            cache,
            id,
            begin_get(cache, key, Call::Contains(key), PendingView::GetProbe { key }),
            fuel,
        ) == (
            s,
            cache.insert(key, s.store[key]),
            StepView::Done(Ok(SuccessView::Value { value: s.store[key], fetched: true })),
        ),
        !s.store.contains_key(key) ==> run(
            s,
            cache,
            id,
            begin_get(cache, key, Call::Contains(key), PendingView::GetProbe { key }),
            fuel,
        ) == (s, cache, StepView::Done(Err(FailureView::NotFound))),
{
    if s.store.contains_key(key) {
        lemma_stream_round_trip(key, s.store[key]);
        lemma_reported_size(s.store[key].len());
    }
    reveal_with_fuel(run, 3);
}

/// A remove takes one request: the coordinator removes the key and tells
/// every node, the cache is left as it is, and the outcome names the side
/// that did not hold the key.
pub proof fn lemma_remove_outcome(
    s: State,
    cache: Map<Seq<u8>, Seq<u8>>,
    id: Seq<u8>,
    key: Seq<u8>,
    fuel: nat,
)
    requires
        fuel >= 1,
    ensures
        run(
            s,
            cache,
            id,
            StepView::Call(Call::Remove(key), PendingView::Remove { key }),
            fuel,
        ) == (
            s.remove(key),
            cache,
            StepView::Done(removal(s.store.contains_key(key), cache.contains_key(key))),
        ),
{
    reveal_with_fuel(run, 2);
}

/// A drain pass of the node `id` against the coordinator: the node resumes
/// its drain with the answer to each update for as long as the coordinator
/// has a key for it. The result is the coordinator's state and the node's
/// cache when the pass is over.
pub open spec fn drain(s: State, id: Seq<u8>, cache: Map<Seq<u8>, Seq<u8>>) -> (
    State,
    Map<Seq<u8>, Seq<u8>>,
)
    decreases s.invalidations[id].len(),
{
    let after = resume(cache, id, PendingView::Drain, s.update_answer(id)).0;
    if s.registered(id) && s.invalidations[id].len() > 0 {
        drain(s.update(id), id, after)
    } else {
        (s.update(id), after)
    }
}

/// A drain goes on exactly as long as the coordinator has a key for the
/// node: the node evicts the key it is handed and asks again; on any other
/// answer the pass is over and the cache is as it was.
pub proof fn lemma_drain_step(s: State, id: Seq<u8>, cache: Map<Seq<u8>, Seq<u8>>)
    ensures
        s.registered(id) && s.invalidations[id].len() > 0 ==> resume(
            cache,
            id,
            PendingView::Drain,
            s.update_answer(id),
        ) == (
            cache.remove(s.invalidations[id][0]),
            StepView::Call(Call::Update(id), PendingView::Drain),
        ),
        !(s.registered(id) && s.invalidations[id].len() > 0) ==> resume(
            cache,
            id,
            PendingView::Drain,
            s.update_answer(id),
        ) == (cache, StepView::Done(Ok(SuccessView::Drained))),
{
}

/// After a drain pass the node's invalidation sequence is empty, the cache
/// holds none of the keys that were in it, and every other key is cached as
/// before.
pub proof fn lemma_drain_evicts(s: State, id: Seq<u8>, cache: Map<Seq<u8>, Seq<u8>>)
    requires
        s.registered(id),
    ensures
        drain(s, id, cache).0.invalidations[id].len() == 0,
        drain(s, id, cache).0.store == s.store,
        forall|k: Seq<u8>|
            s.invalidations[id].contains(k) ==> !(#[trigger] drain(s, id, cache).1.contains_key(k)),
        forall|k: Seq<u8>|
            !s.invalidations[id].contains(k) ==> (#[trigger] drain(s, id, cache).1.contains_key(k)
                <==> cache.contains_key(k)),
        forall|k: Seq<u8>| #[trigger]
            drain(s, id, cache).1.contains_key(k) ==> cache.contains_key(k) && drain(
                s,
                id,
                cache,
            ).1[k] == cache[k],
    decreases s.invalidations[id].len(),
{
    let keys = s.invalidations[id];
    if keys.len() > 0 {
        let head = keys[0];
        let s2 = s.update(id);
        let cache2 = cache.remove(head);
        assert(s2.invalidations[id] == keys.drop_first());
        assert(drain(s, id, cache) == drain(s2, id, cache2));
        lemma_drain_evicts(s2, id, cache2);
        assert forall|k: Seq<u8>| keys.contains(k) implies !(#[trigger] drain(
            s,
            id,
            cache,
        ).1.contains_key(k)) by {
            if k != head {
                let i = choose|i: int| 0 <= i < keys.len() && keys[i] == k;
                assert(keys.drop_first()[i - 1] == k);
            }
        }
        assert forall|k: Seq<u8>| !keys.contains(k) implies (#[trigger] drain(
            s,
            id,
            cache,
        ).1.contains_key(k) <==> cache.contains_key(k)) by {
            if keys.drop_first().contains(k) {
                let i = choose|i: int| 0 <= i < keys.drop_first().len() && keys.drop_first()[i] == k;
                assert(keys[i + 1] == k);
            }
        }
    }
}

/// Once the coordinator has removed a key, the next drain pass of any
/// registered node leaves that node's cache without the key.
pub proof fn lemma_removed_key_is_evicted(
    s: State,
    key: Seq<u8>,
    id: Seq<u8>,
    cache: Map<Seq<u8>, Seq<u8>>,
)
    requires
        s.registered(id),
    ensures
        !drain(s.remove(key), id, cache).1.contains_key(key),
        !drain(s.remove(key), id, cache).0.store.contains_key(key),
{
    let removed = s.remove(key);
    lemma_remove_reaches_all(s, key, id);
    assert(removed.invalidations[id].last() == key);
    lemma_drain_evicts(removed, id, cache);
}

/// A drain pass is the drain operation run for as many requests as it asks
/// for: one for each key in the node's invalidation sequence and one more.
pub proof fn lemma_drain_is_run(s: State, id: Seq<u8>, cache: Map<Seq<u8>, Seq<u8>>, fuel: nat)
    requires
        s.registered(id),
        fuel > s.invalidations[id].len(),
    ensures
        run(s, cache, id, StepView::Call(Call::Update(id), PendingView::Drain), fuel) == (
            drain(s, id, cache).0,
            drain(s, id, cache).1,
            StepView::Done(Ok(SuccessView::Drained)),
        ),
    decreases fuel,
{
    lemma_drain_step(s, id, cache);
    reveal_with_fuel(run, 2);
    if s.invalidations[id].len() > 0 {
        lemma_drain_is_run(s.update(id), id, cache.remove(s.invalidations[id][0]), (fuel - 1) as nat);
    }
}

/// The cache of the node `id` is coherent with the coordinator: the node
/// is registered, and every key it caches either has the same value at the
/// coordinator or is listed for the node to evict.
pub open spec fn coherent(s: State, id: Seq<u8>, cache: Map<Seq<u8>, Seq<u8>>) -> bool {
    &&& s.registered(id)
    &&& forall|k: Seq<u8>| #[trigger]
        cache.contains_key(k) ==> (s.store.contains_key(k) && s.store[k] == cache[k])
            || s.invalidations[id].contains(k)
}

/// The request fits what the node waits for: it is the request that the
/// node's protocol sends before it waits so.
pub open spec fn fits(call: Call, pending: PendingView, id: Seq<u8>) -> bool {
    match pending {
        PendingView::InsertProbe { key, value, streamed } => call == Call::Contains(key),
        PendingView::InsertRead { key } => call == Call::Pull(key) || call == Call::PullFile(key),
        PendingView::InsertWrite { key, value } => call == Call::Push(key, value) || call
            == Call::PushFile(stream(key, value)),
        PendingView::GetProbe { key } => call == Call::Contains(key),
        PendingView::GetRead { key } => call == Call::Pull(key) || call == Call::PullFile(key),
        PendingView::Remove { key } => call == Call::Remove(key),
        PendingView::Drain => call == Call::Update(id),
    }
}

/// A node that has just joined, with nothing cached, is coherent.
pub proof fn lemma_joined_is_coherent(s: State, id: Seq<u8>)
    ensures
        coherent(s.join(id), id, Map::empty()),
{
}

/// Whatever another party asks of the coordinator, a coherent cache stays
/// coherent. Only the node's own updates and a second join under its
/// identity are left out: they change what is listed for the node.
pub proof fn lemma_others_keep_coherent(
    s: State,
    id: Seq<u8>,
    cache: Map<Seq<u8>, Seq<u8>>,
    call: Call,
)
    requires
        coherent(s, id, cache),
        call != Call::Update(id),
        call != Call::Join(id),
    ensures
        coherent(s.next(call), id, cache),
{
    let after = s.next(call);
    assert forall|k: Seq<u8>| #[trigger] cache.contains_key(k) implies (after.store.contains_key(k)
        && after.store[k] == cache[k]) || after.invalidations[id].contains(k) by {
        if s.invalidations[id].contains(k) {
            let i = choose|i: int| 0 <= i < s.invalidations[id].len() && s.invalidations[id][i] == k;
            match call {
                Call::Remove(key) => {
                    assert(after.invalidations[id][i] == k);
                },
                _ => {},
            }
        } else {
            match call {
                Call::Remove(key) => {
                    if k == key {
                        assert(after.invalidations[id].last() == k);
                    }
                },
                _ => {},
            }
        }
    }
}

/// Every step of the node's own protocol keeps its cache coherent: when the
/// coordinator answers a request that fits what the node waits for and the
/// node resumes with the answer, the cache is coherent again, and the next
/// request, if there is one, fits what the node then waits for.
pub proof fn lemma_step_keeps_coherent(
    s: State,
    id: Seq<u8>,
    cache: Map<Seq<u8>, Seq<u8>>,
    call: Call,
    pending: PendingView,
)
    requires
        coherent(s, id, cache),
        fits(call, pending, id),
    ensures
        coherent(s.next(call), id, resume(cache, id, pending, s.answer(call)).0),
        resume(cache, id, pending, s.answer(call)).1 matches StepView::Call(next, waiting) ==> fits(
            next,
            waiting,
            id,
        ),
{
    let after = s.next(call);
    let cached = resume(cache, id, pending, s.answer(call)).0;
    match pending {
        PendingView::InsertRead { key } => {
            if s.store.contains_key(key) {
                lemma_stream_round_trip(key, s.store[key]);
            }
        },
        PendingView::GetRead { key } => {
            if s.store.contains_key(key) {
                lemma_stream_round_trip(key, s.store[key]);
            }
        },
        PendingView::InsertWrite { key, value } => {
            lemma_stream_round_trip(key, value);
        },
        _ => {},
    }
    assert forall|k: Seq<u8>| #[trigger] cached.contains_key(k) implies (after.store.contains_key(k)
        && after.store[k] == cached[k]) || after.invalidations[id].contains(k) by {
        if cache.contains_key(k) && s.invalidations[id].contains(k) {
            let i = choose|i: int| 0 <= i < s.invalidations[id].len() && s.invalidations[id][i] == k;
            match pending {
                PendingView::Remove { key } => {
                    assert(after.invalidations[id][i] == k);
                },
                PendingView::Drain => {
                    if i > 0 {
                        assert(after.invalidations[id][i - 1] == k);
                    }
                },
                _ => {},
            }
        } else {
            match pending {
                PendingView::Remove { key } => {
                    if k == key {
                        assert(after.invalidations[id].last() == k);
                    }
                },
                _ => {},
            }
        }
    }
}

} // verus!
