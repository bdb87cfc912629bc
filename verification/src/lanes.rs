//! Named first-in, first-out lanes of byte strings: the coordinator keeps one
//! set of them for invalidations and one for task queues.
use crate::assoc::{assoc, lemma_assoc_at, lemma_assoc_map, lemma_assoc_push, lemma_assoc_update, paired};
use crate::buffer::{as_slice, contents, contents_of};
use crate::table::{find, names_of};
use bytes::Bytes;
use std::collections::VecDeque;
use vstd::prelude::*;

verus! {

/// What each of a vector of named lanes holds, front first.
pub open spec fn held(entries: Seq<(Bytes, VecDeque<Bytes>)>) -> Seq<Seq<Seq<u8>>> {
    entries.map_values(|entry: (Bytes, VecDeque<Bytes>)| contents_of(entry.1@))
}

/// The function that appends `item` at the back of a lane.
pub open spec fn with_back(item: Seq<u8>) -> spec_fn(Seq<Seq<u8>>) -> Seq<Seq<u8>> {
    |lane: Seq<Seq<u8>>| lane.push(item)
}

/// A map from names to lanes.
pub struct Lanes {
    entries: Vec<(Bytes, VecDeque<Bytes>)>,
}

impl View for Lanes {
    type V = Map<Seq<u8>, Seq<Seq<u8>>>;

    closed spec fn view(&self) -> Map<Seq<u8>, Seq<Seq<u8>>> {
        assoc(names_of(self.entries@), held(self.entries@))
    }
}

impl Lanes {
    /// No name is held twice.
    #[verifier::type_invariant]
    spec fn inv(self) -> bool {
        paired(names_of(self.entries@), held(self.entries@))
    }

    /// No lanes at all.
    pub fn new() -> (lanes: Lanes)
        ensures
            lanes@ == Map::<Seq<u8>, Seq<Seq<u8>>>::empty(),
    {
        Lanes { entries: Vec::new() }
    }

    /// True when there is a lane under `name`, empty or not.
    pub fn contains(&self, name: &[u8]) -> (present: bool)
        ensures
            present == self@.contains_key(name@),
    {
        find(&self.entries, name).is_some()
    }

    /// Puts a fresh, empty lane under `name`, in place of any lane it had.
    pub fn reset(&mut self, name: Bytes)
        ensures
            final(self)@ == old(self)@.insert(contents(name), Seq::<Seq<u8>>::empty()),
    {
        proof {
            use_type_invariant(&*self);
        }
        let ghost names = names_of(self.entries@);
        let ghost lanes = held(self.entries@);
        let mut entries: Vec<(Bytes, VecDeque<Bytes>)> = Vec::new();
        std::mem::swap(&mut entries, &mut self.entries);
        let fresh: VecDeque<Bytes> = VecDeque::new();
        assert(contents_of(fresh@) =~= Seq::<Seq<u8>>::empty());
        match find(&entries, as_slice(&name)) {
            Some(i) => {
                proof {
                    lemma_assoc_update(names, lanes, i as int, Seq::<Seq<u8>>::empty());
                }
                entries.set(i, (name, fresh));
                assert(names_of(entries@) =~= names);
                assert(held(entries@) =~= lanes.update(i as int, Seq::<Seq<u8>>::empty()));
            },
            None => {
                proof {
                    lemma_assoc_push(names, lanes, contents(name), Seq::<Seq<u8>>::empty());
                }
                entries.push((name, fresh));
                assert(names_of(entries@) =~= names.push(contents(name)));
                assert(held(entries@) =~= lanes.push(Seq::<Seq<u8>>::empty()));
            },
        }
        self.entries = entries;
    }

    /// Appends `item` to the lane under `name`, making the lane if there is
    /// none.
    pub fn push_back(&mut self, name: Bytes, item: Bytes)
        ensures
            final(self)@ == old(self)@.insert(
                contents(name),
                (if old(self)@.contains_key(contents(name)) {
                    old(self)@[contents(name)]
                } else {
                    Seq::<Seq<u8>>::empty()
                }).push(contents(item)),
            ),
    {
        proof {
            use_type_invariant(&*self);
        }
        let ghost names = names_of(self.entries@);
        let ghost lanes = held(self.entries@);
        let mut entries: Vec<(Bytes, VecDeque<Bytes>)> = Vec::new();
        std::mem::swap(&mut entries, &mut self.entries);
        match find(&entries, as_slice(&name)) {
            Some(i) => {
                let ghost grown = lanes[i as int].push(contents(item));
                proof {
                    lemma_assoc_at(names, lanes, i as int);
                    lemma_assoc_update(names, lanes, i as int, grown);
                }
                entries[i].1.push_back(item);
                assert(contents_of(entries@[i as int].1@) =~= grown);
                assert(names_of(entries@) =~= names);
                assert(held(entries@) =~= lanes.update(i as int, grown));
            },
            None => {
                let ghost grown = Seq::<Seq<u8>>::empty().push(contents(item));
                proof {
                    lemma_assoc_push(names, lanes, contents(name), grown);
                }
                let mut fresh: VecDeque<Bytes> = VecDeque::new();
                fresh.push_back(item);
                assert(contents_of(fresh@) =~= grown);
                entries.push((name, fresh));
                assert(names_of(entries@) =~= names.push(contents(name)));
                assert(held(entries@) =~= lanes.push(grown));
            },
        }
        self.entries = entries;
    }

    /// Appends `item` to every lane.
    pub fn push_back_all(&mut self, item: &Bytes)
        ensures
            final(self)@ == old(self)@.map_values(with_back(contents(*item))),
    {
        proof {
            use_type_invariant(&*self);
        }
        let ghost names = names_of(self.entries@);
        let ghost lanes = held(self.entries@);
        let ghost grow = with_back(contents(*item));
        let mut entries: Vec<(Bytes, VecDeque<Bytes>)> = Vec::new();
        std::mem::swap(&mut entries, &mut self.entries);
        let count = entries.len();
        let mut i: usize = 0;
        while i < count
            invariant
                i <= count,
                count == lanes.len(),
                grow == with_back(contents(*item)),
                names_of(entries@) == names,
                held(entries@).len() == count,
                forall|j: int| 0 <= j < i ==> #[trigger] held(entries@)[j] == grow(lanes[j]),
                forall|j: int| i <= j < count ==> #[trigger] held(entries@)[j] == lanes[j],
            decreases count - i,
        {
            let ghost before = entries@;
            entries[i].1.push_back(item.clone());
            assert(contents_of(entries@[i as int].1@) =~= grow(held(before)[i as int]));
            assert forall|j: int| 0 <= j < count && j != i implies #[trigger] held(entries@)[j] == held(
                before,
            )[j] by {}
            assert(names_of(entries@) =~= names_of(before));
            i += 1;
        }
        proof {
            lemma_assoc_map(names, lanes, grow);
            assert(held(entries@) =~= lanes.map_values(grow));
        }
        self.entries = entries;
    }

    /// Takes the front item off the lane under `name`. Nothing comes back, and
    /// nothing changes, when the lane is empty or there is no such lane.
    pub fn pop_front(&mut self, name: &[u8]) -> (front: Option<Bytes>)
        ensures
            match front {
                Some(item) => {
                    &&& old(self)@.contains_key(name@)
                    &&& old(self)@[name@].len() > 0
                    &&& contents(item) == old(self)@[name@][0]
                    &&& final(self)@ == old(self)@.insert(name@, old(self)@[name@].drop_first())
                },
                None => {
                    &&& !old(self)@.contains_key(name@) || old(self)@[name@].len() == 0
                    &&& final(self)@ == old(self)@
                },
            },
    {
        proof {
            use_type_invariant(&*self);
        }
        let ghost names = names_of(self.entries@);
        let ghost lanes = held(self.entries@);
        let mut entries: Vec<(Bytes, VecDeque<Bytes>)> = Vec::new();
        std::mem::swap(&mut entries, &mut self.entries);
        let front = match find(&entries, name) {
            Some(i) => {
                proof {
                    lemma_assoc_at(names, lanes, i as int);
                    lemma_assoc_update(names, lanes, i as int, lanes[i as int].drop_first());
                }
                let front = entries[i].1.pop_front();
                assert(names_of(entries@) =~= names);
                if front.is_some() {
                    assert(contents_of(entries@[i as int].1@) =~= lanes[i as int].drop_first());
                    assert(held(entries@) =~= lanes.update(i as int, lanes[i as int].drop_first()));
                } else {
                    assert(held(entries@) =~= lanes);
                }
                front
            },
            None => None,
        };
        self.entries = entries;
        front
    }
}

} // verus!
