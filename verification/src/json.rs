//! A plain model of JSON values, as the library reads them: objects keep
//! their keys in order, numbers keep their integer value (or the bits of a
//! floating-point value, which the library never interprets).

use vstd::prelude::*;
use crate::text::owned;

verus! {

#[derive(Debug, Clone, Copy, PartialEq, Eq, Structural)]
pub enum JsonNumber {
    PosInt(u64),
    NegInt(i64),
    /// The IEEE-754 bits of a floating-point number.
    Float(u64),
}

#[derive(Debug)]
pub enum JsonValue {
    Null,
    Bool(bool),
    Number(JsonNumber),
    Str(String),
    Array(Vec<JsonValue>),
    Object(Vec<(String, JsonValue)>),
}

/// Index of the first entry with key `key`, or `entries.len()`.
pub open spec fn first_key(entries: Seq<(String, JsonValue)>, key: Seq<char>) -> int
    decreases entries.len(),
{
    if entries.len() == 0 {
        0
    } else if entries[0].0@ == key {
        0
    } else {
        1 + first_key(entries.drop_first(), key)
    }
}

pub proof fn lemma_first_key_bounds(entries: Seq<(String, JsonValue)>, key: Seq<char>)
    ensures
        0 <= first_key(entries, key) <= entries.len(),
        first_key(entries, key) < entries.len() ==> entries[first_key(entries, key)].0@ == key,
        forall|k: int| 0 <= k < first_key(entries, key) ==> (#[trigger] entries[k]).0@ != key,
    decreases entries.len(),
{
    if entries.len() > 0 && entries[0].0@ != key {
        lemma_first_key_bounds(entries.drop_first(), key);
        assert forall|k: int| 0 <= k < first_key(entries, key) implies (#[trigger] entries[k]).0@
            != key by {
            if k > 0 {
                assert(entries.drop_first()[k - 1] == entries[k]);
            }
        }
    }
}

/// `Value::get(key)`: the member `key` of an object.
pub open spec fn spec_get(v: JsonValue, key: Seq<char>) -> Option<JsonValue> {
    match v {
        JsonValue::Object(entries) => {
            let k = first_key(entries@, key);
            if k < entries@.len() {
                Some(entries@[k].1)
            } else {
                None
            }
        },
        _ => None,
    }
}

/// `Value::as_bool`.
pub open spec fn spec_as_bool(v: JsonValue) -> Option<bool> {
    match v {
        JsonValue::Bool(b) => Some(b),
        _ => None,
    }
}

/// `Value::as_str`.
pub open spec fn spec_as_str(v: JsonValue) -> Option<Seq<char>> {
    match v {
        JsonValue::Str(s) => Some(s@),
        _ => None,
    }
}

/// `Value::as_u64`.
pub open spec fn spec_as_u64(v: JsonValue) -> Option<u64> {
    match v {
        JsonValue::Number(JsonNumber::PosInt(n)) => Some(n),
        _ => None,
    }
}

/// The strings among the elements of an array, in order.
pub open spec fn strings_of(items: Seq<JsonValue>) -> Seq<Seq<char>>
    decreases items.len(),
{
    if items.len() == 0 {
        Seq::empty()
    } else {
        let r = strings_of(items.drop_last());
        match items.last() {
            JsonValue::Str(s) => r.push(s@),
            _ => r,
        }
    }
}

impl JsonValue {
    pub fn get(&self, key: &str) -> (r: Option<&JsonValue>)
        ensures
            r matches Some(x) ==> spec_get(*self, key@) == Some(*x),
            r is None ==> spec_get(*self, key@) is None,
    {
        match self {
            JsonValue::Object(entries) => {
                let k = owned(key);
                let mut i: usize = 0;
                proof { lemma_first_key_bounds(entries@, key@); }
                while i < entries.len()
                    invariant
                        i <= entries@.len(),
                        *self == JsonValue::Object(*entries),
                        k@ == key@,
                        forall|m: int| 0 <= m < i ==> (#[trigger] entries@[m]).0@ != key@,
                        0 <= first_key(entries@, key@) <= entries@.len(),
                        first_key(entries@, key@) < entries@.len() ==> entries@[first_key(
                            entries@,
                            key@,
                        )].0@ == key@,
                        forall|m: int|
                            0 <= m < first_key(entries@, key@) ==> (#[trigger] entries@[m]).0@
                                != key@,
                    decreases entries.len() - i,
                {
                    if entries[i].0 == k {
                        assert(entries@[i as int].0@ == key@);
                        assert(first_key(entries@, key@) == i as int);
                        assert(spec_get(*self, key@) == Some(entries@[i as int].1));
                        return Some(&entries[i].1);
                    }
                    i = i + 1;
                }
                None
            },
            _ => None,
        }
    }

    pub fn as_bool(&self) -> (r: Option<bool>)
        ensures
            r == spec_as_bool(*self),
    {
        match self {
            JsonValue::Bool(b) => Some(*b),
            _ => None,
        }
    }

    pub fn as_str(&self) -> (r: Option<&str>)
        ensures
            r matches Some(s) ==> spec_as_str(*self) == Some(s@),
            r is None ==> spec_as_str(*self) is None,
    {
        match self {
            JsonValue::Str(s) => Some(s.as_str()),
            _ => None,
        }
    }

    pub fn as_u64(&self) -> (r: Option<u64>)
        ensures
            r == spec_as_u64(*self),
    {
        match self {
            JsonValue::Number(JsonNumber::PosInt(n)) => Some(*n),
            _ => None,
        }
    }

    /// The string elements of an array (none when the value is no array).
    pub fn string_elements(&self) -> (r: Option<Vec<String>>)
        ensures
            match *self {
                JsonValue::Array(items) => r matches Some(v) && v@.map_values(|s: String| s@)
                    == strings_of(items@),
                _ => r is None,
            },
    {
        match self {
            JsonValue::Array(items) => {
                let mut out: Vec<String> = Vec::new();
                let mut i: usize = 0;
                while i < items.len()
                    invariant
                        i <= items@.len(),
                        out@.map_values(|s: String| s@) == strings_of(items@.take(i as int)),
                    decreases items.len() - i,
                {
                    assert(items@.take(i + 1).drop_last() == items@.take(i as int));
                    match &items[i] {
                        JsonValue::Str(s) => {
                            out.push(owned(s.as_str()));
                            assert(out@.map_values(|s: String| s@) =~= strings_of(
                                items@.take(i as int),
                            ).push(s@));
                        },
                        _ => {},
                    }
                    i = i + 1;
                }
                assert(items@.take(items@.len() as int) == items@);
                Some(out)
            },
            _ => None,
        }
    }
}

} // verus!
