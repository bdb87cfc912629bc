//! What holds of the coordinator over several requests.
use crate::frame::{carried, lemma_stream_round_trip, stream};
use crate::global::State;
use crate::wire::Answer;
use vstd::prelude::*;

verus! {

/// The state after pushing `entries` in order, each a key with its value.
pub open spec fn pushes(s: State, entries: Seq<(Seq<u8>, Seq<u8>)>) -> State
    decreases entries.len(),
{
    if entries.len() == 0 {
        s
    } else {
        pushes(s, entries.drop_last()).push(entries.last().0, entries.last().1)
    }
}

/// No two of `entries` have the same key.
pub open spec fn distinct_keys(entries: Seq<(Seq<u8>, Seq<u8>)>) -> bool {
    forall|i: int, j: int|
        0 <= i < entries.len() && 0 <= j < entries.len() && i != j ==> entries[i].0 != entries[j].0
}

/// None of `entries` has a key that `s` maps.
pub open spec fn fresh_keys(s: State, entries: Seq<(Seq<u8>, Seq<u8>)>) -> bool {
    forall|i: int| 0 <= i < entries.len() ==> !s.store.contains_key(#[trigger] entries[i].0)
}

/// After pushing the first `n` of distinct, fresh entries, the store maps
/// what it mapped before and the keys of those entries to their values, and
/// nothing else.
pub proof fn lemma_pushes_store(s: State, entries: Seq<(Seq<u8>, Seq<u8>)>, n: int)
    requires
        distinct_keys(entries),
        fresh_keys(s, entries),
        0 <= n <= entries.len(),
    ensures
        forall|i: int|
            0 <= i < n ==> {
                &&& pushes(s, entries.take(n)).store.contains_key(#[trigger] entries[i].0)
                &&& pushes(s, entries.take(n)).store[entries[i].0] == entries[i].1
            },
        forall|i: int|
            n <= i < entries.len() ==> !pushes(s, entries.take(n)).store.contains_key(
                #[trigger] entries[i].0,
            ),
        forall|k: Seq<u8>|
            s.store.contains_key(k) ==> #[trigger] pushes(s, entries.take(n)).store.contains_key(k)
                && pushes(s, entries.take(n)).store[k] == s.store[k],
        pushes(s, entries.take(n)).invalidations == s.invalidations,
        pushes(s, entries.take(n)).queues == s.queues,
    decreases n,
{
    if n > 0 {
        lemma_pushes_store(s, entries, n - 1);
        let before = pushes(s, entries.take(n - 1));
        assert(entries.take(n).drop_last() =~= entries.take(n - 1));
        assert(pushes(s, entries.take(n)) == before.push(entries[n - 1].0, entries[n - 1].1));
        assert forall|i: int| 0 <= i < n implies {
            &&& pushes(s, entries.take(n)).store.contains_key(#[trigger] entries[i].0)
            &&& pushes(s, entries.take(n)).store[entries[i].0] == entries[i].1
        } by {
            if i < n - 1 {
                assert(before.store.contains_key(entries[i].0));
            }
        }
    }
}

/// Pushes of distinct keys that the store does not map all succeed, and
/// afterwards every one of the keys pulls its value.
pub proof fn lemma_disjoint_pushes(s: State, entries: Seq<(Seq<u8>, Seq<u8>)>)
    requires
        distinct_keys(entries),
        fresh_keys(s, entries),
    ensures
        forall|i: int|
            0 <= i < entries.len() ==> #[trigger] pushes(s, entries.take(i)).push_answer(
                entries[i].0,
            ) == Answer::Null,
        forall|i: int|
            0 <= i < entries.len() ==> pushes(s, entries).pull_answer(#[trigger] entries[i].0)
                == Answer::Byte(entries[i].1),
{
    assert forall|i: int| 0 <= i < entries.len() implies #[trigger] pushes(
        s,
        entries.take(i),
    ).push_answer(entries[i].0) == Answer::Null by {
        lemma_pushes_store(s, entries, i);
    }
    lemma_pushes_store(s, entries, entries.len() as int);
    assert(entries.take(entries.len() as int) =~= entries);
}

/// Of two pushes of one key that the store does not map, the first succeeds
/// and the second fails with already-exists; the key then pulls the first
/// value.
pub proof fn lemma_second_push_fails(s: State, key: Seq<u8>, first: Seq<u8>, second: Seq<u8>)
    requires
        !s.store.contains_key(key),
    ensures
        s.push_answer(key) == Answer::Null,
        s.push(key, first).push_answer(key) == crate::global::key_in_use(),
        s.push(key, first).push(key, second).pull_answer(key) == Answer::Byte(first),
{
}

/// Whatever the store held, a second push of a key fails with
/// already-exists and changes nothing.
pub proof fn lemma_push_is_final(s: State, key: Seq<u8>, first: Seq<u8>, second: Seq<u8>)
    ensures
        s.push(key, first).push_answer(key) == crate::global::key_in_use(),
        s.push(key, first).push(key, second) == s.push(key, first),
{
}

/// Joining twice is joining once: the node is registered with an empty
/// invalidation sequence, whatever the sequence held before.
pub proof fn lemma_join_idempotent(s: State, id: Seq<u8>)
    ensures
        s.join(id).registered(id),
        s.join(id).invalidations[id] == Seq::<Seq<u8>>::empty(),
        s.join(id).join(id) == s.join(id),
{
    assert(s.join(id).join(id).invalidations =~= s.join(id).invalidations);
}

/// A value pushed as a stream under a key that the store does not map comes
/// back from `pull_file` as a stream that carries the same key and value.
pub proof fn lemma_file_round_trip(s: State, key: Seq<u8>, value: Seq<u8>)
    requires
        !s.store.contains_key(key),
    ensures
        s.push_file_answer(stream(key, value)) == Answer::Null,
        s.push_file(stream(key, value)).pull_file_answer(key) == Answer::Stream(stream(key, value)),
        carried(stream(key, value)) == Some((key, value)),
        s.push_file(stream(key, value)).pull_answer(key) == Answer::Byte(value),
{
    lemma_stream_round_trip(key, value);
}

/// A queue hands out its values in the order they were put in: two values
/// appended to an empty queue come out first and second, and then the queue
/// is empty again.
pub proof fn lemma_queue_fifo(s: State, name: Seq<u8>, first: Seq<u8>, second: Seq<u8>)
    requires
        s.queue(name).len() == 0,
    ensures
        ({
            let filled = s.en_queue(name, first).en_queue(name, second);
            &&& filled.de_queue_answer(name) == Answer::Byte(first)
            &&& filled.de_queue(name).de_queue_answer(name) == Answer::Byte(second)
            &&& filled.de_queue(name).de_queue(name).de_queue_answer(name)
                == crate::global::queue_empty()
        }),
{
    let one = s.en_queue(name, first);
    assert(one.queue(name) =~= seq![first]);
    let filled = one.en_queue(name, second);
    assert(filled.queue(name) =~= seq![first, second]);
    let rest = filled.de_queue(name);
    assert(rest.queue(name) =~= seq![second]);
    assert(rest.de_queue(name).queue(name) =~= Seq::<Seq<u8>>::empty());
}

/// A queue of any length hands out its oldest value first, and a value put
/// in is taken out only after all that were there before it.
pub proof fn lemma_queue_order(s: State, name: Seq<u8>, value: Seq<u8>)
    ensures
        s.en_queue(name, value).queue(name) == s.queue(name).push(value),
        s.queue(name).len() > 0 ==> s.en_queue(name, value).de_queue_answer(name) == Answer::Byte(
            s.queue(name)[0],
        ),
        s.queue(name).len() > 0 ==> s.de_queue(name).queue(name) == s.queue(name).drop_first(),
{
}

/// A removal reaches every registered node: the key is at the back of each
/// node's invalidation sequence, no node is added or lost, and the key is
/// not mapped.
pub proof fn lemma_remove_reaches_all(s: State, key: Seq<u8>, id: Seq<u8>)
    ensures
        s.remove(key).registered(id) == s.registered(id),
        s.registered(id) ==> s.remove(key).invalidations[id] == s.invalidations[id].push(key),
        !s.remove(key).store.contains_key(key),
{
}

/// A node drains its invalidation sequence oldest key first.
pub proof fn lemma_update_order(s: State, id: Seq<u8>)
    requires
        s.registered(id),
        s.invalidations[id].len() > 0,
    ensures
        s.update_answer(id) == Answer::Byte(s.invalidations[id][0]),
        s.update(id).registered(id),
        s.update(id).invalidations[id] == s.invalidations[id].drop_first(),
{
}

} // verus!
