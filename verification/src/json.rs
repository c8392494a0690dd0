//! JSON values as the engine reads and writes them: the same shape as a
//! serde_json `Value`, with objects kept as association lists. A floating-point
//! number is carried as the bit pattern of its `f64`, never computed on here.

use vstd::prelude::*;
use crate::assoc::{find_index, insert_entry, inserted, key_at, keyed, lemma_lookup_at, lemma_same_keys, lookup, contains_key, law_lookup_after_insert};
use crate::text::owned;

verus! {

/// A JSON number: a non-negative integer, a negative integer, or a float
/// carried by the bits of its `f64`.
#[derive(Debug, PartialEq, Eq, Clone, Copy)]
pub enum JsonNumber {
    PosInt(u64),
    NegInt(i64),
    Float(u64),
}

/// A JSON value.
#[derive(Debug, PartialEq, Eq)]
pub enum JsonValue {
    Null,
    Bool(bool),
    Number(JsonNumber),
    String(String),
    Array(Vec<JsonValue>),
    Object(Vec<(String, JsonValue)>),
}

/// The mathematical content of a JSON value.
pub ghost enum JsonData {
    Null,
    Bool(bool),
    Number(JsonNumber),
    Str(Seq<char>),
    Array(Seq<JsonData>),
    Object(Seq<(Seq<char>, JsonData)>),
}

impl JsonValue {
    pub open spec fn data(self) -> JsonData
        decreases self,
    {
        match self {
            JsonValue::Null => JsonData::Null,
            JsonValue::Bool(b) => JsonData::Bool(b),
            JsonValue::Number(n) => JsonData::Number(n),
            JsonValue::String(s) => JsonData::Str(s@),
            JsonValue::Array(items) => JsonData::Array(
                Seq::new(
                    items@.len(),
                    |i: int|
                        if 0 <= i < items@.len() {
                            items@[i].data()
                        } else {
                            JsonData::Null
                        },
                ),
            ),
            JsonValue::Object(entries) => JsonData::Object(
                Seq::new(
                    entries@.len(),
                    |i: int|
                        if 0 <= i < entries@.len() {
                            (entries@[i].0@, entries@[i].1.data())
                        } else {
                            (Seq::<char>::empty(), JsonData::Null)
                        },
                ),
            ),
        }
    }
}

impl View for JsonValue {
    type V = JsonData;

    open spec fn view(&self) -> JsonData {
        self.data()
    }
}

/// The content of a list of values.
pub open spec fn values_data(items: Seq<JsonValue>) -> Seq<JsonData> {
    Seq::new(items.len(), |i: int| items[i]@)
}

/// The content of an object's entries.
pub open spec fn entries_data(entries: Seq<(String, JsonValue)>) -> Seq<(Seq<char>, JsonData)> {
    Seq::new(entries.len(), |i: int| (entries[i].0@, entries[i].1@))
}

impl JsonData {
    /// The member under `key` of an object; nothing for other values.
    pub open spec fn get(self, key: Seq<char>) -> Option<JsonData> {
        match self {
            JsonData::Object(entries) => lookup(entries, key),
            _ => None,
        }
    }

    pub open spec fn as_str(self) -> Option<Seq<char>> {
        match self {
            JsonData::Str(s) => Some(s),
            _ => None,
        }
    }

    pub open spec fn as_bool(self) -> Option<bool> {
        match self {
            JsonData::Bool(b) => Some(b),
            _ => None,
        }
    }

    /// A non-negative integer.
    pub open spec fn as_u64(self) -> Option<u64> {
        match self {
            JsonData::Number(JsonNumber::PosInt(n)) => Some(n),
            _ => None,
        }
    }

    pub open spec fn as_array(self) -> Option<Seq<JsonData>> {
        match self {
            JsonData::Array(items) => Some(items),
            _ => None,
        }
    }

    pub open spec fn as_object(self) -> Option<Seq<(Seq<char>, JsonData)>> {
        match self {
            JsonData::Object(entries) => Some(entries),
            _ => None,
        }
    }

    /// `get(key)` then `as_str()`.
    pub open spec fn str_at(self, key: Seq<char>) -> Option<Seq<char>> {
        match self.get(key) {
            Some(v) => v.as_str(),
            None => None,
        }
    }

    /// `get(key)` then `as_bool()`.
    pub open spec fn bool_at(self, key: Seq<char>) -> Option<bool> {
        match self.get(key) {
            Some(v) => v.as_bool(),
            None => None,
        }
    }

    /// `get(key)` then `as_u64()`.
    pub open spec fn u64_at(self, key: Seq<char>) -> Option<u64> {
        match self.get(key) {
            Some(v) => v.as_u64(),
            None => None,
        }
    }

    /// `get(key)` then `as_array()`.
    pub open spec fn array_at(self, key: Seq<char>) -> Option<Seq<JsonData>> {
        match self.get(key) {
            Some(v) => v.as_array(),
            None => None,
        }
    }

    /// `get(key)` then `as_object()`.
    pub open spec fn object_at(self, key: Seq<char>) -> Option<Seq<(Seq<char>, JsonData)>> {
        match self.get(key) {
            Some(v) => v.as_object(),
            None => None,
        }
    }
}

/// The content of an optional value.
pub open spec fn opt_data(v: Option<JsonValue>) -> Option<JsonData> {
    match v {
        Some(x) => Some(x@),
        None => None,
    }
}

pub proof fn lemma_object_view(entries: Vec<(String, JsonValue)>)
    ensures
        JsonValue::Object(entries)@ == JsonData::Object(entries_data(entries@)),
{
    let d = JsonValue::Object(entries).data();
    if let JsonData::Object(s) = d {
        assert forall|i: int| 0 <= i < s.len() implies s[i] == entries_data(entries@)[i] by {}
        assert(s =~= entries_data(entries@));
    }
}

pub proof fn lemma_array_view(items: Vec<JsonValue>)
    ensures
        JsonValue::Array(items)@ == JsonData::Array(values_data(items@)),
{
    let d = JsonValue::Array(items).data();
    if let JsonData::Array(s) = d {
        assert forall|i: int| 0 <= i < s.len() implies s[i] == values_data(items@)[i] by {}
        assert(s =~= values_data(items@));
    }
}

/// The member under `key` of an object's entries.
pub fn entries_get<'a>(entries: &'a Vec<(String, JsonValue)>, key: &str) -> (res: Option<&'a JsonValue>)
    ensures
        match res {
            Some(v) => lookup(entries_data(entries@), key@) == Some(v@) && decreases_to!(*entries => *v),
            None => lookup(entries_data(entries@), key@) is None,
        },
{
    let ghost d = entries_data(entries@);
    let ghost k = keyed(entries@);
    proof {
        lemma_same_keys(k, d, key@);
    }
    match find_index(entries, key) {
        Some(i) => {
            proof {
                lemma_lookup_at(d, key@, i as int);
                assert(decreases_to!(*entries => entries@));
                assert(decreases_to!(entries@ => entries@[i as int]));
                assert(decreases_to!(entries@[i as int] => entries@[i as int].1));
            }
            Some(&entries[i].1)
        },
        None => None,
    }
}

impl JsonValue {
    pub fn get(&self, key: &str) -> (res: Option<&JsonValue>)
        ensures
            match res {
                Some(v) => self@.get(key@) == Some(v@) && decreases_to!(*self => *v),
                None => self@.get(key@) is None,
            },
    {
        match self {
            JsonValue::Object(entries) => {
                proof {
                    lemma_object_view(*entries);
                    assert(decreases_to!(*self => (*self)->Object_0));
                }
                entries_get(entries, key)
            },
            _ => None,
        }
    }

    pub fn as_str(&self) -> (res: Option<&str>)
        ensures
            match res {
                Some(s) => self@.as_str() == Some(s@),
                None => self@.as_str() is None,
            },
    {
        match self {
            JsonValue::String(s) => Some(s.as_str()),
            _ => None,
        }
    }

    pub fn as_bool(&self) -> (res: Option<bool>)
        ensures
            res == self@.as_bool(),
    {
        match self {
            JsonValue::Bool(b) => Some(*b),
            _ => None,
        }
    }

    pub fn as_u64(&self) -> (res: Option<u64>)
        ensures
            res == self@.as_u64(),
    {
        match self {
            JsonValue::Number(JsonNumber::PosInt(n)) => Some(*n),
            _ => None,
        }
    }

    pub fn as_array(&self) -> (res: Option<&Vec<JsonValue>>)
        ensures
            match res {
                Some(v) => self@.as_array() == Some(values_data(v@)) && decreases_to!(*self => *v),
                None => self@.as_array() is None,
            },
    {
        match self {
            JsonValue::Array(items) => {
                proof {
                    lemma_array_view(*items);
                    assert(decreases_to!(*self => (*self)->Array_0));
                }
                Some(items)
            },
            _ => None,
        }
    }

    pub fn as_object(&self) -> (res: Option<&Vec<(String, JsonValue)>>)
        ensures
            match res {
                Some(v) => self@.as_object() == Some(entries_data(v@)),
                None => self@.as_object() is None,
            },
    {
        match self {
            JsonValue::Object(entries) => {
                proof { lemma_object_view(*entries); }
                Some(entries)
            },
            _ => None,
        }
    }

    pub fn is_null(&self) -> (res: bool)
        ensures
            res == (self@ is Null),
    {
        match self {
            JsonValue::Null => true,
            _ => false,
        }
    }

    pub fn str_member(&self, key: &str) -> (res: Option<&str>)
        ensures
            match res {
                Some(s) => self@.str_at(key@) == Some(s@),
                None => self@.str_at(key@) is None,
            },
    {
        match self.get(key) {
            Some(v) => v.as_str(),
            None => None,
        }
    }

    pub fn bool_member(&self, key: &str) -> (res: Option<bool>)
        ensures
            res == self@.bool_at(key@),
    {
        match self.get(key) {
            Some(v) => v.as_bool(),
            None => None,
        }
    }

    pub fn u64_member(&self, key: &str) -> (res: Option<u64>)
        ensures
            res == self@.u64_at(key@),
    {
        match self.get(key) {
            Some(v) => v.as_u64(),
            None => None,
        }
    }

    pub fn array_member(&self, key: &str) -> (res: Option<&Vec<JsonValue>>)
        ensures
            match res {
                Some(v) => self@.array_at(key@) == Some(values_data(v@)) && decreases_to!(*self => *v),
                None => self@.array_at(key@) is None,
            },
    {
        match self.get(key) {
            Some(v) => v.as_array(),
            None => None,
        }
    }

    pub fn object_member(&self, key: &str) -> (res: Option<&Vec<(String, JsonValue)>>)
        ensures
            match res {
                Some(v) => self@.object_at(key@) == Some(entries_data(v@)),
                None => self@.object_at(key@) is None,
            },
    {
        match self.get(key) {
            Some(v) => v.as_object(),
            None => None,
        }
    }

    /// A string value holding a copy of `s`.
    pub fn text(s: &str) -> (res: JsonValue)
        ensures
            res@ == JsonData::Str(s@),
    {
        JsonValue::String(owned(s))
    }

    /// An object value with the given entries.
    pub fn object(entries: Vec<(String, JsonValue)>) -> (res: JsonValue)
        ensures
            res@ == JsonData::Object(entries_data(entries@)),
    {
        proof { lemma_object_view(entries); }
        JsonValue::Object(entries)
    }

    /// An array value with the given items.
    pub fn array(items: Vec<JsonValue>) -> (res: JsonValue)
        ensures
            res@ == JsonData::Array(values_data(items@)),
    {
        proof { lemma_array_view(items); }
        JsonValue::Array(items)
    }

    /// A copy of the value.
    pub fn deep_clone(&self) -> (res: JsonValue)
        ensures
            res@ == self@,
        decreases self,
    {
        match self {
            JsonValue::Null => JsonValue::Null,
            JsonValue::Bool(b) => JsonValue::Bool(*b),
            JsonValue::Number(n) => JsonValue::Number(*n),
            JsonValue::String(s) => JsonValue::String(s.clone()),
            JsonValue::Array(items) => {
                let mut out: Vec<JsonValue> = Vec::new();
                let mut i: usize = 0;
                while i < items.len()
                    invariant
                        *self == JsonValue::Array(*items),
                        0 <= i <= items@.len(),
                        out@.len() == i,
                        forall|j: int| 0 <= j < i ==> (#[trigger] out@[j])@ == items@[j]@,
                    decreases items@.len() - i,
                {
                    assert((*self)->Array_0 == *items);
                    assert(decreases_to!(*self => (*self)->Array_0));
                    assert(decreases_to!(*items => items@));
                    assert(decreases_to!(items@ => items@[i as int]));
                    let c = items[i].deep_clone();
                    out.push(c);
                    i = i + 1;
                }
                proof {
                    lemma_array_view(*items);
                    lemma_array_view(out);
                    assert(values_data(out@) =~= values_data(items@));
                }
                JsonValue::Array(out)
            },
            JsonValue::Object(entries) => {
                let mut out: Vec<(String, JsonValue)> = Vec::new();
                let mut i: usize = 0;
                while i < entries.len()
                    invariant
                        *self == JsonValue::Object(*entries),
                        0 <= i <= entries@.len(),
                        out@.len() == i,
                        forall|j: int| 0 <= j < i ==> (#[trigger] out@[j]).0@ == entries@[j].0@ && out@[j].1@ == entries@[j].1@,
                    decreases entries@.len() - i,
                {
                    assert((*self)->Object_0 == *entries);
                    assert(decreases_to!(*self => (*self)->Object_0));
                    assert(decreases_to!(*entries => entries@));
                    assert(decreases_to!(entries@ => entries@[i as int]));
                    assert(decreases_to!(entries@[i as int] => entries@[i as int].1));
                    let k = entries[i].0.clone();
                    let v = entries[i].1.deep_clone();
                    out.push((k, v));
                    i = i + 1;
                }
                proof {
                    lemma_object_view(*entries);
                    lemma_object_view(out);
                    assert(entries_data(out@) =~= entries_data(entries@));
                }
                JsonValue::Object(out)
            },
        }
    }
}

impl Clone for JsonValue {
    fn clone(&self) -> (res: Self)
        ensures
            res@ == self@,
    {
        self.deep_clone()
    }
}

/// A copy of an optional value.
pub fn clone_opt(v: &Option<JsonValue>) -> (res: Option<JsonValue>)
    ensures
        opt_data(res) == opt_data(*v),
{
    match v {
        Some(x) => Some(x.deep_clone()),
        None => None,
    }
}

/// A copy of a list of values.
pub fn clone_values(items: &Vec<JsonValue>) -> (res: Vec<JsonValue>)
    ensures
        values_data(res@) == values_data(items@),
{
    let mut out: Vec<JsonValue> = Vec::new();
    let mut i: usize = 0;
    while i < items.len()
        invariant
            0 <= i <= items@.len(),
            out@.len() == i,
            forall|j: int| 0 <= j < i ==> (#[trigger] out@[j])@ == items@[j]@,
        decreases items@.len() - i,
    {
        out.push(items[i].deep_clone());
        i = i + 1;
    }
    assert(values_data(out@) =~= values_data(items@));
    out
}

/// A copy of an object's entries.
pub fn clone_entries(entries: &Vec<(String, JsonValue)>) -> (res: Vec<(String, JsonValue)>)
    ensures
        entries_data(res@) == entries_data(entries@),
{
    let mut out: Vec<(String, JsonValue)> = Vec::new();
    let mut i: usize = 0;
    while i < entries.len()
        invariant
            0 <= i <= entries@.len(),
            out@.len() == i,
            forall|j: int| 0 <= j < i ==> (#[trigger] out@[j]).0@ == entries@[j].0@ && out@[j].1@ == entries@[j].1@,
        decreases entries@.len() - i,
    {
        out.push((entries[i].0.clone(), entries[i].1.deep_clone()));
        i = i + 1;
    }
    assert(entries_data(out@) =~= entries_data(entries@));
    out
}

/// A copy of a list of strings.
pub fn clone_strings(items: &Vec<String>) -> (res: Vec<String>)
    ensures
        res@ == items@,
{
    let mut out: Vec<String> = Vec::new();
    let mut i: usize = 0;
    while i < items.len()
        invariant
            0 <= i <= items@.len(),
            out@.len() == i,
            forall|j: int| 0 <= j < i ==> out@[j] == items@[j],
        decreases items@.len() - i,
    {
        out.push(items[i].clone());
        i = i + 1;
    }
    assert(out@ =~= items@);
    out
}

/// A copy of a byte string.
pub fn clone_bytes(b: &Vec<u8>) -> (res: Vec<u8>)
    ensures
        res@ == b@,
{
    let mut out: Vec<u8> = Vec::new();
    let mut i: usize = 0;
    while i < b.len()
        invariant
            0 <= i <= b@.len(),
            out@ == b@.subrange(0, i as int),
        decreases b@.len() - i,
    {
        out.push(b[i]);
        i = i + 1;
        assert(out@ =~= b@.subrange(0, i as int));
    }
    assert(b@.subrange(0, b@.len() as int) =~= b@);
    out
}

/// Inserts a member into an object's entries, replacing the value of an
/// existing member with that key (`Map::insert`).
pub fn object_insert(entries: &mut Vec<(String, JsonValue)>, key: &str, value: JsonValue)
    ensures
        entries_data(final(entries)@) == inserted(entries_data(old(entries)@), key@, value@),
{
    let key_text = owned(key);
    let ghost before = old(entries)@;
    let ghost v = value;
    insert_entry(entries, key_text, value);
    proof {
        let kb = keyed(before);
        let db = entries_data(before);
        lemma_same_keys(kb, db, key@);
        let after = entries_data(entries@);
        if exists|i: int| key_at(kb, key@, i) {
            let i = choose|i: int| key_at(kb, key@, i);
            assert(key_at(db, key@, i));
            let c = choose|c: int| key_at(db, key@, c);
            crate::assoc::lemma_key_at_unique(db, key@, i, c);
            assert(keyed(entries@) == kb.update(i, (key@, v)));
            assert(kb.len() == before.len());
            assert(keyed(entries@).len() == entries@.len());
            assert(entries@.len() == before.len());
            assert forall|j: int| 0 <= j < after.len() implies after[j] == db.update(i, (key@, v@))[j] by {
                assert(keyed(entries@)[j].0 == entries@[j].0@);
                assert(keyed(entries@)[j].1 == entries@[j].1);
                if j != i {
                    assert(kb.update(i, (key@, v))[j] == kb[j]);
                    assert(keyed(entries@)[j] == kb[j]);
                    assert(entries@[j].1 == before[j].1);
                }
            }
            assert(after =~= db.update(i, (key@, v@)));
        } else {
            assert(!(exists|i: int| key_at(db, key@, i)));
            assert(keyed(entries@) == kb.push((key@, v)));
            assert(kb.len() == before.len());
            assert(keyed(entries@).len() == entries@.len());
            assert(entries@.len() == before.len() + 1);
            assert(db.len() == before.len());
            assert forall|j: int| 0 <= j < after.len() implies after[j] == db.push((key@, v@))[j] by {
                assert(keyed(entries@)[j].0 == entries@[j].0@);
                assert(keyed(entries@)[j].1 == entries@[j].1);
                if j < before.len() {
                    assert(kb.push((key@, v))[j] == kb[j]);
                    assert(keyed(entries@)[j] == kb[j]);
                    assert(entries@[j].1 == before[j].1);
                }
            }
            assert(after =~= db.push((key@, v@)));
        }
    }
}

/// Inserting into an object makes the key read back the inserted value and
/// leaves every other key's value as it was.
pub proof fn law_object_get_after_insert(entries: Seq<(Seq<char>, JsonData)>, key: Seq<char>, value: JsonData, other: Seq<char>)
    ensures
        JsonData::Object(inserted(entries, key, value)).get(key) == Some(value),
        other != key ==> JsonData::Object(inserted(entries, key, value)).get(other) == JsonData::Object(entries).get(other),
{
    law_lookup_after_insert(entries, key, value, other);
}

/// A single object member.
pub open spec fn member(key: Seq<char>, value: JsonData) -> Seq<(Seq<char>, JsonData)> {
    seq![(key, value)]
}

/// A member when there is a value, nothing otherwise.
pub open spec fn opt_member(key: Seq<char>, value: Option<JsonData>) -> Seq<(Seq<char>, JsonData)> {
    match value {
        Some(v) => seq![(key, v)],
        None => Seq::empty(),
    }
}

/// The JSON strings of a list of texts.
pub open spec fn strings_data(items: Seq<String>) -> JsonData {
    JsonData::Array(Seq::new(items.len(), |i: int| JsonData::Str(items[i]@)))
}

pub open spec fn opt_strings_data(items: Option<Vec<String>>) -> Option<JsonData> {
    match items {
        Some(v) => Some(strings_data(v@)),
        None => None,
    }
}

pub open spec fn opt_text_data(s: Option<String>) -> Option<JsonData> {
    match s {
        Some(t) => Some(JsonData::Str(t@)),
        None => None,
    }
}

pub open spec fn opt_bool_data(b: Option<bool>) -> Option<JsonData> {
    match b {
        Some(x) => Some(JsonData::Bool(x)),
        None => None,
    }
}

pub open spec fn u64_data(n: u64) -> JsonData {
    JsonData::Number(JsonNumber::PosInt(n))
}

pub open spec fn opt_u32_data(n: Option<u32>) -> Option<JsonData> {
    match n {
        Some(x) => Some(u64_data(x as u64)),
        None => None,
    }
}

/// Appends a member to an object's entries.
pub fn push_member(entries: &mut Vec<(String, JsonValue)>, key: &str, value: JsonValue)
    ensures
        entries_data(final(entries)@) == entries_data(old(entries)@) + member(key@, value@),
{
    let ghost before = entries_data(entries@);
    entries.push((owned(key), value));
    assert(entries_data(entries@) =~= before + member(key@, value@));
}

/// Appends a member when there is a value.
pub fn push_opt_member(entries: &mut Vec<(String, JsonValue)>, key: &str, value: Option<JsonValue>)
    ensures
        entries_data(final(entries)@) == entries_data(old(entries)@) + opt_member(key@, opt_data(value)),
{
    let ghost before = entries_data(entries@);
    match value {
        Some(v) => push_member(entries, key, v),
        None => {
            assert(before + Seq::<(Seq<char>, JsonData)>::empty() =~= before);
        },
    }
}

/// A JSON array of strings.
pub fn strings_json(items: &Vec<String>) -> (res: JsonValue)
    ensures
        res@ == strings_data(items@),
{
    let mut out: Vec<JsonValue> = Vec::new();
    let mut i: usize = 0;
    while i < items.len()
        invariant
            0 <= i <= items@.len(),
            out@.len() == i,
            forall|k: int| 0 <= k < i ==> (#[trigger] out@[k])@ == JsonData::Str(items@[k]@),
        decreases items@.len() - i,
    {
        out.push(JsonValue::String(items[i].clone()));
        i = i + 1;
    }
    let res = JsonValue::array(out);
    assert(values_data(out@) =~= Seq::new(items@.len(), |k: int| JsonData::Str(items@[k]@)));
    res
}

pub fn opt_strings_json(items: &Option<Vec<String>>) -> (res: Option<JsonValue>)
    ensures
        opt_data(res) == opt_strings_data(*items),
{
    match items {
        Some(v) => Some(strings_json(v)),
        None => None,
    }
}

pub fn opt_text_json(s: &Option<String>) -> (res: Option<JsonValue>)
    ensures
        opt_data(res) == opt_text_data(*s),
{
    match s {
        Some(t) => Some(JsonValue::String(t.clone())),
        None => None,
    }
}

pub fn opt_bool_json(b: Option<bool>) -> (res: Option<JsonValue>)
    ensures
        opt_data(res) == opt_bool_data(b),
{
    match b {
        Some(x) => Some(JsonValue::Bool(x)),
        None => None,
    }
}

pub fn opt_u32_json(n: Option<u32>) -> (res: Option<JsonValue>)
    ensures
        opt_data(res) == opt_u32_data(n),
{
    match n {
        Some(x) => Some(JsonValue::Number(JsonNumber::PosInt(x as u64))),
        None => None,
    }
}

} // verus!
