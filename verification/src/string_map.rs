//! A table from text keys to text values with unique keys, kept in insertion
//! order: the engine's form of a `HashMap<String, String>` (headers, query
//! parameters, provider settings).

use vstd::prelude::*;
use crate::assoc::{find_index, insert_entry, inserted, keyed, law_lookup_after_insert, lemma_lookup_at, lookup, unique_keys};
use crate::text::owned;

verus! {

pub struct StringMap {
    pub entries: Vec<(String, String)>,
}

/// The entries of a string table, key and value taken by their text.
pub open spec fn text_entries(entries: Seq<(String, String)>) -> Seq<(Seq<char>, Seq<char>)> {
    Seq::new(entries.len(), |i: int| (entries[i].0@, entries[i].1@))
}

impl View for StringMap {
    type V = Seq<(Seq<char>, Seq<char>)>;

    open spec fn view(&self) -> Seq<(Seq<char>, Seq<char>)> {
        text_entries(self.entries@)
    }
}

impl StringMap {
    /// No key occurs twice.
    pub open spec fn wf(&self) -> bool {
        unique_keys(self@)
    }

    /// The value under `key`.
    pub open spec fn spec_get(&self, key: Seq<char>) -> Option<Seq<char>> {
        lookup(self@, key)
    }

    pub fn new() -> (res: StringMap)
        ensures
            res@ == Seq::<(Seq<char>, Seq<char>)>::empty(),
            res.wf(),
    {
        let res = StringMap { entries: Vec::new() };
        assert(res@ =~= Seq::<(Seq<char>, Seq<char>)>::empty());
        res
    }

    pub fn len(&self) -> (res: usize)
        ensures
            res == self@.len(),
    {
        self.entries.len()
    }

    /// The value under `key`, borrowed.
    pub fn get(&self, key: &str) -> (res: Option<&String>)
        ensures
            match res {
                Some(v) => self.spec_get(key@) == Some(v@),
                None => self.spec_get(key@) is None,
            },
    {
        proof { crate::assoc::lemma_same_keys(keyed(self.entries@), self@, key@); }
        match find_index(&self.entries, key) {
            Some(i) => {
                proof { lemma_lookup_at(self@, key@, i as int); }
                Some(&self.entries[i].1)
            },
            None => None,
        }
    }

    pub fn contains_key(&self, key: &str) -> (res: bool)
        ensures
            res == (self.spec_get(key@) is Some),
    {
        self.get(key).is_some()
    }

    /// Inserts or replaces the value under `key`.
    pub fn insert(&mut self, key: String, value: String)
        ensures
            final(self)@ == inserted(old(self)@, key@, value@),
            old(self).wf() ==> final(self).wf(),
    {
        let ghost before = self.entries@;
        let ghost k = key@;
        let ghost v = value;
        insert_entry(&mut self.entries, key, value);
        proof {
            let kb = keyed(before);
            let tb = text_entries(before);
            crate::assoc::lemma_same_keys(kb, tb, k);
            law_lookup_after_insert(tb, k, v@, k);
            if exists|i: int| crate::assoc::key_at(kb, k, i) {
                let i = choose|i: int| crate::assoc::key_at(kb, k, i);
                let c = choose|c: int| crate::assoc::key_at(tb, k, c);
                crate::assoc::lemma_key_at_unique(tb, k, i, c);
                assert(keyed(self.entries@) == kb.update(i, (k, v)));
                assert forall|j: int| 0 <= j < self@.len() implies self@[j] == tb.update(i, (k, v@))[j] by {
                    assert(keyed(self.entries@)[j].0 == self.entries@[j].0@);
                    assert(keyed(self.entries@)[j].1 == self.entries@[j].1);
                    if j != i {
                        assert(kb.update(i, (k, v))[j] == kb[j]);
                    }
                }
                assert(self@ =~= tb.update(i, (k, v@)));
            } else {
                assert(keyed(self.entries@) == kb.push((k, v)));
                assert forall|j: int| 0 <= j < self@.len() implies self@[j] == tb.push((k, v@))[j] by {
                    assert(keyed(self.entries@)[j].0 == self.entries@[j].0@);
                    assert(keyed(self.entries@)[j].1 == self.entries@[j].1);
                    if j < before.len() {
                        assert(kb.push((k, v))[j] == kb[j]);
                    }
                }
                assert(self@ =~= tb.push((k, v@)));
            }
        }
    }

    /// Inserts from borrowed text.
    pub fn insert_str(&mut self, key: &str, value: &str)
        ensures
            final(self)@ == inserted(old(self)@, key@, value@),
            old(self).wf() ==> final(self).wf(),
    {
        self.insert(owned(key), owned(value));
    }

    /// A copy of the table.
    pub fn copy(&self) -> (res: StringMap)
        ensures
            res@ == self@,
    {
        let mut out: Vec<(String, String)> = Vec::new();
        let mut i: usize = 0;
        while i < self.entries.len()
            invariant
                0 <= i <= self.entries@.len(),
                out@.len() == i,
                forall|j: int| 0 <= j < i ==> (#[trigger] out@[j]).0@ == self.entries@[j].0@ && out@[j].1@ == self.entries@[j].1@,
            decreases self.entries@.len() - i,
        {
            out.push((self.entries[i].0.clone(), self.entries[i].1.clone()));
            i = i + 1;
        }
        let res = StringMap { entries: out };
        assert(res@ =~= self@);
        res
    }
}

/// The entries whose key is not `key`, in their order.
pub open spec fn without_key(entries: Seq<(Seq<char>, Seq<char>)>, key: Seq<char>) -> Seq<(Seq<char>, Seq<char>)>
    decreases entries.len(),
{
    if entries.len() == 0 {
        entries
    } else {
        let rest = without_key(entries.drop_last(), key);
        if entries.last().0 == key {
            rest
        } else {
            rest.push(entries.last())
        }
    }
}

impl StringMap {
    /// A copy of the table without the entry under `key`.
    pub fn without(&self, key: &str) -> (res: StringMap)
        ensures
            res@ == without_key(self@, key@),
    {
        let mut out = StringMap { entries: Vec::new() };
        let mut i: usize = 0;
        assert(out@ =~= without_key(self@.take(0), key@));
        while i < self.entries.len()
            invariant
                0 <= i <= self.entries@.len(),
                out@ == without_key(self@.take(i as int), key@),
            decreases self.entries@.len() - i,
        {
            assert(self@.take(i + 1).drop_last() =~= self@.take(i as int));
            if !crate::text::str_eq(self.entries[i].0.as_str(), key) {
                let ghost before = out@;
                out.entries.push((self.entries[i].0.clone(), self.entries[i].1.clone()));
                assert(out@ =~= before.push(self@[i as int]));
            }
            i = i + 1;
        }
        assert(self@.take(self@.len() as int) =~= self@);
        out
    }
}

/// Inserting into a table makes the key read back the inserted value, keeps
/// every other key's value, and keeps keys unique.
pub proof fn law_string_map_get_after_insert(table: Seq<(Seq<char>, Seq<char>)>, key: Seq<char>, value: Seq<char>, other: Seq<char>)
    ensures
        lookup(inserted(table, key, value), key) == Some(value),
        other != key ==> lookup(inserted(table, key, value), other) == lookup(table, other),
        unique_keys(table) ==> unique_keys(inserted(table, key, value)),
{
    law_lookup_after_insert(table, key, value, other);
}

} // verus!
