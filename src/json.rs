use vstd::prelude::*;

use crate::number::is_finite;
use crate::text::same_text;

verus! {

/// A JSON value. A number is a finite double, held by its IEEE-754 bits. An
/// object keeps its entries in order; a key is looked up by its first entry.
#[derive(Debug, PartialEq)]
pub enum Json {
    Null,
    Bool(bool),
    Number(u64),
    String(String),
    Array(Vec<Json>),
    Object(Vec<(String, Json)>),
}

/// The value of the first entry under `key`.
pub open spec fn lookup(entries: Seq<(String, Json)>, key: Seq<char>) -> Option<Json>
    decreases entries.len(),
{
    if entries.len() == 0 {
        None
    } else if entries[0].0@ == key {
        Some(entries[0].1)
    } else {
        lookup(entries.drop_first(), key)
    }
}

/// The value under `key` when `j` is an object.
pub open spec fn json_get(j: Json, key: Seq<char>) -> Option<Json> {
    match j {
        Json::Object(entries) => lookup(entries@, key),
        _ => None,
    }
}

pub open spec fn deref_json(j: Option<&Json>) -> Option<Json> {
    match j {
        Some(v) => Some(*v),
        None => None,
    }
}

/// A scalar that an encoder writes into a field.
pub enum FieldValue {
    Null,
    Number(u64),
    Text(Seq<char>),
}

/// `j` holds the scalar `v`.
pub open spec fn holds(j: Json, v: FieldValue) -> bool {
    match v {
        FieldValue::Null => j is Null,
        FieldValue::Number(bits) => j == Json::Number(bits),
        FieldValue::Text(t) => j matches Json::String(s) && s@ == t,
    }
}

/// `j` is an object with exactly these keys, in this order, holding these scalars.
pub open spec fn is_flat_object(j: Json, fields: Seq<(Seq<char>, FieldValue)>) -> bool {
    &&& j matches Json::Object(entries)
    &&& entries@.len() == fields.len()
    &&& forall|i: int|
        0 <= i < fields.len() ==> (#[trigger] entries@[i]).0@ == fields[i].0 && holds(
            entries@[i].1,
            fields[i].1,
        )
}

/// A double as a JSON field: a number when it is finite, else null.
pub open spec fn double_field(bits: u64) -> FieldValue {
    if is_finite(bits) {
        FieldValue::Number(bits)
    } else {
        FieldValue::Null
    }
}

pub proof fn lemma_lookup_at(entries: Seq<(String, Json)>, key: Seq<char>, i: int)
    requires
        0 <= i < entries.len(),
        entries[i].0@ == key,
        forall|k: int| 0 <= k < i ==> (#[trigger] entries[k]).0@ != key,
    ensures
        lookup(entries, key) == Some(entries[i].1),
    decreases i,
{
    if i > 0 {
        assert(entries[0].0@ != key);
        assert forall|k: int| 0 <= k < i - 1 implies (#[trigger] entries.drop_first()[k]).0@
            != key by {
            assert(entries.drop_first()[k] == entries[k + 1]);
        }
        lemma_lookup_at(entries.drop_first(), key, i - 1);
    }
}

pub proof fn lemma_lookup_absent(entries: Seq<(String, Json)>, key: Seq<char>)
    requires
        forall|k: int| 0 <= k < entries.len() ==> (#[trigger] entries[k]).0@ != key,
    ensures
        lookup(entries, key) is None,
    decreases entries.len(),
{
    if entries.len() > 0 {
        assert(entries[0].0@ != key);
        assert forall|k: int| 0 <= k < entries.len() - 1 implies (
        #[trigger] entries.drop_first()[k]).0@ != key by {
            assert(entries.drop_first()[k] == entries[k + 1]);
        }
        lemma_lookup_absent(entries.drop_first(), key);
    }
}

fn lookup_entries<'a>(entries: &'a Vec<(String, Json)>, key: &str) -> (r: Option<&'a Json>)
    ensures
        deref_json(r) == lookup(entries@, key@),
{
    let len = entries.len();
    let mut i: usize = 0;
    assert(entries@.subrange(0, len as int) =~= entries@);
    while i < len
        invariant
            len == entries@.len(),
            i <= len,
            lookup(entries@, key@) == lookup(entries@.subrange(i as int, len as int), key@),
        decreases len - i,
    {
        let entry = &entries[i];
        assert(entries@.subrange(i as int, len as int).drop_first() =~= entries@.subrange(
            i + 1,
            len as int,
        ));
        if same_text(entry.0.as_str(), key) {
            return Some(&entry.1);
        }
        i = i + 1;
    }
    None
}

impl Json {
    /// The value under `key` when this is an object.
    pub fn get(&self, key: &str) -> (r: Option<&Json>)
        ensures
            deref_json(r) == json_get(*self, key@),
    {
        match self {
            Json::Object(entries) => lookup_entries(entries, key),
            _ => None,
        }
    }

    pub fn is_object(&self) -> (r: bool)
        ensures
            r == self is Object,
    {
        match self {
            Json::Object(_) => true,
            _ => false,
        }
    }

    /// The text of a JSON string.
    pub fn as_str(&self) -> (r: Option<&str>)
        ensures
            self matches Json::String(s) ==> (r matches Some(t) && t@ == s@),
            !(self is String) ==> r is None,
    {
        match self {
            Json::String(s) => Some(s.as_str()),
            _ => None,
        }
    }

    /// The bits of a JSON number.
    pub fn as_double(&self) -> (r: Option<u64>)
        ensures
            self matches Json::Number(bits) ==> r == Some(*bits),
            !(self is Number) ==> r is None,
    {
        match self {
            Json::Number(bits) => Some(*bits),
            _ => None,
        }
    }
}

/// An entry holding a JSON string.
pub fn text_entry(key: &str, text: &str) -> (r: (String, Json))
    ensures
        r.0@ == key@,
        holds(r.1, FieldValue::Text(text@)),
{
    (key.to_owned(), Json::String(text.to_owned()))
}

/// An entry holding a double: a number when it is finite, else null.
pub fn double_entry(key: &str, bits: u64) -> (r: (String, Json))
    ensures
        r.0@ == key@,
        holds(r.1, double_field(bits)),
{
    if crate::number::double_is_finite(bits) {
        (key.to_owned(), Json::Number(bits))
    } else {
        (key.to_owned(), Json::Null)
    }
}

} // verus!
