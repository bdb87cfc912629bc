//! A map from byte-string keys to byte-string values, kept as a vector of
//! key-value pairs in which no key occurs twice.
use crate::assoc::{assoc, lemma_assoc_at, lemma_assoc_push, lemma_assoc_remove, lemma_assoc_update, paired};
use crate::buffer::{as_slice, contents, holds};
use bytes::Bytes;
use vstd::prelude::*;

verus! {

/// The names that a vector of named entries holds, in order.
pub open spec fn names_of<T>(entries: Seq<(Bytes, T)>) -> Seq<Seq<u8>> {
    entries.map_values(|entry: (Bytes, T)| contents(entry.0))
}

/// The values beside the names, in order.
pub open spec fn values_of(entries: Seq<(Bytes, Bytes)>) -> Seq<Seq<u8>> {
    entries.map_values(|entry: (Bytes, Bytes)| contents(entry.1))
}

/// The place of the entry named `name`, if there is one.
pub(crate) fn find<T>(entries: &Vec<(Bytes, T)>, name: &[u8]) -> (place: Option<usize>)
    ensures
        match place {
            Some(i) => i < entries@.len() && names_of(entries@)[i as int] == name@,
            None => !names_of(entries@).contains(name@),
        },
{
    let mut i: usize = 0;
    while i < entries.len()
        invariant
            i <= entries@.len(),
            forall|j: int| 0 <= j < i ==> names_of(entries@)[j] != name@,
        decreases entries@.len() - i,
    {
        if holds(&entries[i].0, name) {
            return Some(i);
        }
        i += 1;
    }
    None
}

/// A map from keys to values.
pub struct Table {
    entries: Vec<(Bytes, Bytes)>,
}

impl View for Table {
    type V = Map<Seq<u8>, Seq<u8>>;

    closed spec fn view(&self) -> Map<Seq<u8>, Seq<u8>> {
        assoc(names_of(self.entries@), values_of(self.entries@))
    }
}

impl Table {
    /// No key is held twice.
    #[verifier::type_invariant]
    spec fn inv(self) -> bool {
        paired(names_of(self.entries@), values_of(self.entries@))
    }

    /// The empty table.
    pub fn new() -> (table: Table)
        ensures
            table@ == Map::<Seq<u8>, Seq<u8>>::empty(),
    {
        Table { entries: Vec::new() }
    }

    /// The value under `key`, if there is one.
    pub fn get(&self, key: &[u8]) -> (found: Option<&Bytes>)
        ensures
            match found {
                Some(value) => self@.contains_key(key@) && contents(*value) == self@[key@],
                None => !self@.contains_key(key@),
            },
    {
        proof {
            use_type_invariant(self);
        }
        match find(&self.entries, key) {
            Some(i) => {
                proof {
                    lemma_assoc_at(names_of(self.entries@), values_of(self.entries@), i as int);
                }
                Some(&self.entries[i].1)
            },
            None => None,
        }
    }

    /// True when `key` has a value.
    pub fn contains_key(&self, key: &[u8]) -> (present: bool)
        ensures
            present == self@.contains_key(key@),
    {
        find(&self.entries, key).is_some()
    }

    /// Maps `key` to `value`, in place of any value it had.
    pub fn insert(&mut self, key: Bytes, value: Bytes)
        ensures
            final(self)@ == old(self)@.insert(contents(key), contents(value)),
    {
        proof {
            use_type_invariant(&*self);
        }
        let ghost names = names_of(self.entries@);
        let ghost vals = values_of(self.entries@);
        let mut entries: Vec<(Bytes, Bytes)> = Vec::new();
        std::mem::swap(&mut entries, &mut self.entries);
        match find(&entries, as_slice(&key)) {
            Some(i) => {
                proof {
                    lemma_assoc_update(names, vals, i as int, contents(value));
                }
                entries.set(i, (key, value));
                assert(names_of(entries@) =~= names);
                assert(values_of(entries@) =~= vals.update(i as int, contents(value)));
            },
            None => {
                proof {
                    lemma_assoc_push(names, vals, contents(key), contents(value));
                }
                entries.push((key, value));
                assert(names_of(entries@) =~= names.push(contents(key)));
                assert(values_of(entries@) =~= vals.push(contents(value)));
            },
        }
        self.entries = entries;
    }

    /// Takes `key` out and hands back the value it had, if any.
    pub fn remove(&mut self, key: &[u8]) -> (taken: Option<Bytes>)
        ensures
            final(self)@ == old(self)@.remove(key@),
            match taken {
                Some(value) => old(self)@.contains_key(key@) && contents(value) == old(self)@[key@],
                None => !old(self)@.contains_key(key@),
            },
    {
        proof {
            use_type_invariant(&*self);
        }
        let ghost names = names_of(self.entries@);
        let ghost vals = values_of(self.entries@);
        let mut entries: Vec<(Bytes, Bytes)> = Vec::new();
        std::mem::swap(&mut entries, &mut self.entries);
        let taken = match find(&entries, key) {
            Some(i) => {
                proof {
                    lemma_assoc_at(names, vals, i as int);
                    lemma_assoc_remove(names, vals, i as int);
                }
                let entry = entries.remove(i);
                assert(names_of(entries@) =~= names.remove(i as int));
                assert(values_of(entries@) =~= vals.remove(i as int));
                Some(entry.1)
            },
            None => None,
        };
        self.entries = entries;
        taken
    }
}

} // verus!
