//! Association lists as maps: a sequence of distinct names beside a sequence
//! of values, read as the map that sends each name to the value at its place.
use vstd::prelude::*;

verus! {

/// The map that sends `names[i]` to `vals[i]`.
pub open spec fn assoc<K, A>(names: Seq<K>, vals: Seq<A>) -> Map<K, A> {
    Map::new(|k: K| names.contains(k), |k: K| vals[names.index_of(k)])
}

/// Names and values pair up one to one, and no name occurs twice.
pub open spec fn paired<K, A>(names: Seq<K>, vals: Seq<A>) -> bool {
    names.len() == vals.len() && names.no_duplicates()
}

/// The name at place `i` is mapped to the value at place `i`.
pub proof fn lemma_assoc_at<K, A>(names: Seq<K>, vals: Seq<A>, i: int)
    requires
        paired(names, vals),
        0 <= i < names.len(),
    ensures
        assoc(names, vals).contains_key(names[i]),
        assoc(names, vals)[names[i]] == vals[i],
        names.index_of(names[i]) == i,
{
    assert(names.contains(names[i]));
}

/// Appending a new name with its value inserts it into the map.
pub proof fn lemma_assoc_push<K, A>(names: Seq<K>, vals: Seq<A>, k: K, a: A)
    requires
        paired(names, vals),
        !names.contains(k),
    ensures
        paired(names.push(k), vals.push(a)),
        assoc(names.push(k), vals.push(a)) == assoc(names, vals).insert(k, a),
{
    let names2 = names.push(k);
    let vals2 = vals.push(a);
    assert(names2.no_duplicates());
    assert forall|x: K| #[trigger]
        assoc(names2, vals2).contains_key(x) <==> assoc(names, vals).insert(k, a).contains_key(
            x,
        ) by {
        if names.contains(x) {
            assert(names2[names.index_of(x)] == x);
        }
        if x == k {
            assert(names2[names.len() as int] == k);
        }
    }
    assert forall|x: K| #[trigger] assoc(names2, vals2).contains_key(x) implies assoc(names2, vals2)[x]
        == assoc(names, vals).insert(k, a)[x] by {
        if x == k {
            lemma_assoc_at(names2, vals2, names.len() as int);
        } else {
            lemma_assoc_at(names, vals, names2.index_of(x));
        }
    }
}

/// Replacing the value at place `i` re-maps the name at place `i`.
pub proof fn lemma_assoc_update<K, A>(names: Seq<K>, vals: Seq<A>, i: int, a: A)
    requires
        paired(names, vals),
        0 <= i < names.len(),
    ensures
        paired(names, vals.update(i, a)),
        assoc(names, vals.update(i, a)) == assoc(names, vals).insert(names[i], a),
{
    lemma_assoc_at(names, vals, i);
    assert forall|x: K| #[trigger] assoc(names, vals.update(i, a)).contains_key(x) implies assoc(
        names,
        vals.update(i, a),
    )[x] == assoc(names, vals).insert(names[i], a)[x] by {
        lemma_assoc_at(names, vals, names.index_of(x));
    }
}

/// Taking out place `i` removes the name at place `i` from the map.
pub proof fn lemma_assoc_remove<K, A>(names: Seq<K>, vals: Seq<A>, i: int)
    requires
        paired(names, vals),
        0 <= i < names.len(),
    ensures
        paired(names.remove(i), vals.remove(i)),
        assoc(names.remove(i), vals.remove(i)) == assoc(names, vals).remove(names[i]),
{
    let names2 = names.remove(i);
    let vals2 = vals.remove(i);
    assert(names2.no_duplicates());
    assert forall|x: K| #[trigger]
        assoc(names2, vals2).contains_key(x) <==> assoc(names, vals).remove(names[i]).contains_key(
            x,
        ) by {
        if names.contains(x) && x != names[i] {
            let p = names.index_of(x);
            assert(names2[if p < i { p } else { p - 1 }] == x);
        }
    }
    assert forall|x: K| #[trigger] assoc(names2, vals2).contains_key(x) implies assoc(names2, vals2)[x]
        == assoc(names, vals).remove(names[i])[x] by {
        let p = names2.index_of(x);
        lemma_assoc_at(names, vals, if p < i { p } else { p + 1 });
    }
}

/// Changing every value in place changes every value of the map.
pub proof fn lemma_assoc_map<K, A, B>(names: Seq<K>, vals: Seq<A>, f: spec_fn(A) -> B)
    requires
        paired(names, vals),
    ensures
        paired(names, vals.map_values(f)),
        assoc(names, vals.map_values(f)) == assoc(names, vals).map_values(f),
{
    assert forall|x: K| #[trigger] assoc(names, vals.map_values(f)).contains_key(x) implies assoc(
        names,
        vals.map_values(f),
    )[x] == assoc(names, vals).map_values(f)[x] by {
        lemma_assoc_at(names, vals, names.index_of(x));
    }
}

} // verus!
