//! Association lists keyed by text: the ordered key/value tables behind JSON
//! objects and string maps. A lookup finds the first entry with the key; an
//! insert replaces that entry's value or appends a new entry, so keys stay unique.

use vstd::prelude::*;
use crate::text::str_eq;

verus! {

/// The entries of a table with each key taken by its text.
pub open spec fn keyed<V>(entries: Seq<(String, V)>) -> Seq<(Seq<char>, V)> {
    Seq::new(entries.len(), |i: int| (entries[i].0@, entries[i].1))
}

/// `i` is the position of the first entry whose key is `key`.
pub open spec fn key_at<V>(entries: Seq<(Seq<char>, V)>, key: Seq<char>, i: int) -> bool {
    &&& 0 <= i < entries.len()
    &&& entries[i].0 == key
    &&& forall|j: int| 0 <= j < i ==> (#[trigger] entries[j]).0 != key
}

/// Some entry has the key.
pub open spec fn contains_key<V>(entries: Seq<(Seq<char>, V)>, key: Seq<char>) -> bool {
    exists|i: int| 0 <= i < entries.len() && (#[trigger] entries[i]).0 == key
}

/// The value under `key`: that of the first entry with the key.
pub open spec fn lookup<V>(entries: Seq<(Seq<char>, V)>, key: Seq<char>) -> Option<V> {
    if exists|i: int| key_at(entries, key, i) {
        Some(entries[choose|i: int| key_at(entries, key, i)].1)
    } else {
        None
    }
}

/// No two entries share a key.
pub open spec fn unique_keys<V>(entries: Seq<(Seq<char>, V)>) -> bool {
    forall|i: int, j: int|
        0 <= i < j < entries.len() ==> (#[trigger] entries[i]).0 != (#[trigger] entries[j]).0
}

/// The table after an insert: the first entry with the key gets the new value,
/// or, where there is none, a new entry is appended.
pub open spec fn inserted<V>(entries: Seq<(Seq<char>, V)>, key: Seq<char>, value: V) -> Seq<(Seq<char>, V)> {
    if exists|i: int| key_at(entries, key, i) {
        let i = choose|i: int| key_at(entries, key, i);
        entries.update(i, (key, value))
    } else {
        entries.push((key, value))
    }
}

/// The keys of a table, in order.
pub open spec fn keys_of<V>(entries: Seq<(Seq<char>, V)>) -> Seq<Seq<char>> {
    Seq::new(entries.len(), |i: int| entries[i].0)
}

pub proof fn lemma_key_at_unique<V>(entries: Seq<(Seq<char>, V)>, key: Seq<char>, i: int, j: int)
    requires
        key_at(entries, key, i),
        key_at(entries, key, j),
    ensures
        i == j,
{
    if i < j {
        assert(entries[i].0 != key);
    } else if j < i {
        assert(entries[j].0 != key);
    }
}

pub proof fn lemma_lookup_at<V>(entries: Seq<(Seq<char>, V)>, key: Seq<char>, i: int)
    requires
        key_at(entries, key, i),
    ensures
        lookup(entries, key) == Some(entries[i].1),
        contains_key(entries, key),
{
    let k = choose|k: int| key_at(entries, key, k);
    lemma_key_at_unique(entries, key, i, k);
}

/// Where some entry has the key, there is a first one.
pub proof fn lemma_contains_first<V>(entries: Seq<(Seq<char>, V)>, key: Seq<char>) -> (i: int)
    requires
        contains_key(entries, key),
    ensures
        key_at(entries, key, i),
    decreases entries.len(),
{
    if entries[0].0 == key {
        0
    } else {
        let rest = entries.drop_first();
        let w = choose|w: int| 0 <= w < entries.len() && (#[trigger] entries[w]).0 == key;
        assert(rest[w - 1] == entries[w]);
        let k = lemma_contains_first(rest, key);
        assert forall|j: int| 0 <= j < k + 1 implies (#[trigger] entries[j]).0 != key by {
            if j > 0 {
                assert(entries[j] == rest[j - 1]);
            }
        }
        k + 1
    }
}

/// Two tables with the same keys in the same places find a key at the same place.
pub proof fn lemma_same_keys<A, B>(a: Seq<(Seq<char>, A)>, b: Seq<(Seq<char>, B)>, key: Seq<char>)
    requires
        a.len() == b.len(),
        forall|i: int| 0 <= i < a.len() ==> (#[trigger] a[i]).0 == b[i].0,
    ensures
        forall|i: int| key_at(a, key, i) <==> key_at(b, key, i),
        contains_key(a, key) <==> contains_key(b, key),
{
    assert forall|i: int| key_at(a, key, i) <==> key_at(b, key, i) by {
        if key_at(a, key, i) {
            assert forall|j: int| 0 <= j < i implies (#[trigger] b[j]).0 != key by {
                assert(a[j].0 == b[j].0);
            }
        }
        if key_at(b, key, i) {
            assert forall|j: int| 0 <= j < i implies (#[trigger] a[j]).0 != key by {
                assert(a[j].0 == b[j].0);
            }
        }
    }
    if contains_key(a, key) {
        let w = choose|w: int| 0 <= w < a.len() && (#[trigger] a[w]).0 == key;
        assert(b[w].0 == key);
    }
    if contains_key(b, key) {
        let w = choose|w: int| 0 <= w < b.len() && (#[trigger] b[w]).0 == key;
        assert(a[w].0 == key);
    }
}

/// Position of the first entry with the key, if any.
pub fn find_index<V>(entries: &Vec<(String, V)>, key: &str) -> (res: Option<usize>)
    ensures
        match res {
            Some(i) => key_at(keyed(entries@), key@, i as int),
            None => !contains_key(keyed(entries@), key@),
        },
{
    let mut i: usize = 0;
    while i < entries.len()
        invariant
            0 <= i <= entries@.len(),
            forall|j: int| 0 <= j < i ==> (#[trigger] keyed(entries@)[j]).0 != key@,
        decreases entries@.len() - i,
    {
        if str_eq(entries[i].0.as_str(), key) {
            return Some(i);
        }
        i = i + 1;
    }
    None
}

/// Value under `key`, borrowed.
pub fn get_entry<'a, V>(entries: &'a Vec<(String, V)>, key: &str) -> (res: Option<&'a V>)
    ensures
        match res {
            Some(v) => lookup(keyed(entries@), key@) == Some(*v),
            None => lookup(keyed(entries@), key@) is None,
        },
{
    match find_index(entries, key) {
        Some(i) => {
            proof { lemma_lookup_at(keyed(entries@), key@, i as int); }
            Some(&entries[i].1)
        },
        None => None,
    }
}

/// Inserts or replaces the value under `key`; a replaced entry keeps its key text.
pub fn insert_entry<V>(entries: &mut Vec<(String, V)>, key: String, value: V)
    ensures
        keyed(final(entries)@) == inserted(keyed(old(entries)@), key@, value),
{
    let idx = find_index(entries, key.as_str());
    let ghost before = keyed(old(entries)@);
    match idx {
        Some(i) => {
            let k = entries[i].0.clone();
            entries.set(i, (k, value));
            proof {
                let c = choose|c: int| key_at(before, key@, c);
                lemma_key_at_unique(before, key@, i as int, c);
                assert(keyed(entries@) =~= before.update(i as int, (key@, value)));
            }
        },
        None => {
            entries.push((key, value));
            proof {
                if exists|c: int| key_at(before, key@, c) {
                    let c = choose|c: int| key_at(before, key@, c);
                    assert(before[c].0 == key@);
                }
                assert(keyed(entries@) =~= before.push((key@, value)));
            }
        },
    }
}

/// Inserting a key makes a lookup of it give the new value, leaves the value
/// under every other key as it was, and keeps keys unique.
pub proof fn law_lookup_after_insert<V>(entries: Seq<(Seq<char>, V)>, key: Seq<char>, value: V, other: Seq<char>)
    ensures
        lookup(inserted(entries, key, value), key) == Some(value),
        other != key ==> lookup(inserted(entries, key, value), other) == lookup(entries, other),
        unique_keys(entries) ==> unique_keys(inserted(entries, key, value)),
{
    let after = inserted(entries, key, value);
    if exists|i: int| key_at(entries, key, i) {
        let i = choose|i: int| key_at(entries, key, i);
        assert forall|j: int| 0 <= j < entries.len() implies (#[trigger] after[j]).0 == entries[j].0 by {}
        lemma_same_keys(entries, after, key);
        lemma_same_keys(entries, after, other);
        lemma_lookup_at(after, key, i);
        if other != key {
            if exists|k: int| key_at(entries, other, k) {
                let k = choose|k: int| key_at(entries, other, k);
                lemma_lookup_at(after, other, k);
                lemma_lookup_at(entries, other, k);
            }
        }
    } else {
        let n = entries.len() as int;
        if contains_key(entries, key) {
            let f = lemma_contains_first(entries, key);
            assert(false);
        }
        assert(key_at(after, key, n));
        lemma_lookup_at(after, key, n);
        if other != key {
            if exists|k: int| key_at(entries, other, k) {
                let k = choose|k: int| key_at(entries, other, k);
                assert(key_at(after, other, k));
                lemma_lookup_at(after, other, k);
                lemma_lookup_at(entries, other, k);
            } else {
                assert forall|k: int| !key_at(after, other, k) by {
                    if key_at(after, other, k) && k < n {
                        assert forall|j: int| 0 <= j < k implies (#[trigger] entries[j]).0 != other by {
                            assert(after[j] == entries[j]);
                        }
                        assert(key_at(entries, other, k));
                    }
                }
            }
        }
        if unique_keys(entries) {
            assert forall|a: int, b: int| 0 <= a < b < after.len() implies (#[trigger] after[a]).0 != (#[trigger] after[b]).0 by {
                if b == n {
                    assert(entries[a].0 != key);
                }
            }
        }
    }
}

} // verus!
