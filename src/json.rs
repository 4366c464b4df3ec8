//! The JSON values that the engine reads and writes.
use vstd::prelude::*;
use vstd::string::*;

verus! {

/// A JSON value. Numbers are held as their decimal text, so that an `id`
/// is echoed exactly as it was received; objects keep their fields in order.
#[derive(Debug, PartialEq, Eq)]
pub enum JsonValue {
    Null,
    Bool(bool),
    Number(String),
    Str(String),
    Array(Vec<JsonValue>),
    Object(Vec<(String, JsonValue)>),
}

/// The value of the first field named `key` at or after position `i`.
pub open spec fn lookup_from(fields: Seq<(String, JsonValue)>, key: Seq<char>, i: int) -> Option<JsonValue>
    decreases fields.len() - i,
{
    if i < 0 || i >= fields.len() {
        None
    } else if fields[i].0@ == key {
        Some(fields[i].1)
    } else {
        lookup_from(fields, key, i + 1)
    }
}

/// The value of the first field named `key`.
pub open spec fn lookup(fields: Seq<(String, JsonValue)>, key: Seq<char>) -> Option<JsonValue> {
    lookup_from(fields, key, 0)
}

/// The value of field `key` of `v`, where `v` is an object.
pub open spec fn spec_get(v: JsonValue, key: Seq<char>) -> Option<JsonValue> {
    match v {
        JsonValue::Object(fields) => lookup(fields@, key),
        _ => None,
    }
}

/// The `i`-th field of the object `j`.
pub open spec fn entry(j: JsonValue, i: int) -> (String, JsonValue) {
    j->Object_0@[i]
}

/// `j` is an object with `n` fields.
pub open spec fn is_object_of(j: JsonValue, n: int) -> bool {
    j is Object && j->Object_0@.len() == n
}

/// `j` is an array of `n` items.
pub open spec fn is_array_of(j: JsonValue, n: int) -> bool {
    j is Array && j->Array_0@.len() == n
}

/// The `i`-th field of the object `j` is named `key`.
pub open spec fn key_at(j: JsonValue, i: int, key: Seq<char>) -> bool {
    j is Object && 0 <= i < j->Object_0@.len() && entry(j, i).0@ == key
}

/// The `i`-th field of the object `j` is `key` with the string `val`.
pub open spec fn str_at(j: JsonValue, i: int, key: Seq<char>, val: Seq<char>) -> bool {
    key_at(j, i, key) && entry(j, i).1 is Str && entry(j, i).1->Str_0@ == val
}

/// A string value made from a literal.
pub fn string(s: &str) -> (r: JsonValue)
    ensures
        r is Str && r->Str_0@ == s@,
{
    JsonValue::Str(String::from_str(s))
}

/// A field named `key` holding `v`.
pub fn pair(key: &str, v: JsonValue) -> (r: (String, JsonValue))
    ensures
        r.0@ == key@,
        r.1 == v,
{
    (String::from_str(key), v)
}

/// The empty object.
pub fn empty_object() -> (r: JsonValue)
    ensures
        is_object_of(r, 0),
{
    JsonValue::Object(Vec::new())
}

/// A string made from a literal.
pub fn text(s: &str) -> (r: String)
    ensures
        r@ == s@,
{
    String::from_str(s)
}

/// Position of the first field named `key`, if any.
pub fn find_field(fields: &Vec<(String, JsonValue)>, key: &str) -> (r: Option<usize>)
    ensures
        match r {
            Some(i) => i < fields@.len() && fields@[i as int].0@ == key@
                && lookup(fields@, key@) == Some(fields@[i as int].1),
            None => lookup(fields@, key@) is None,
        },
{
    let k = String::from_str(key);
    let mut i: usize = 0;
    while i < fields.len()
        invariant
            i <= fields@.len(),
            k@ == key@,
            lookup(fields@, key@) == lookup_from(fields@, key@, i as int),
        decreases fields@.len() - i,
    {
        if fields[i].0 == k {
            return Some(i);
        }
        i = i + 1;
    }
    None
}

impl JsonValue {
    /// Whether `self` is an object.
    pub fn is_object(&self) -> (r: bool)
        ensures
            r == (*self is Object),
    {
        match self {
            JsonValue::Object(_) => true,
            _ => false,
        }
    }

    /// Whether `self` is an object with a field named `key`.
    pub fn has_field(&self, key: &str) -> (r: bool)
        ensures
            r == spec_get(*self, key@) is Some,
    {
        match self {
            JsonValue::Object(fields) => find_field(fields, key).is_some(),
            _ => false,
        }
    }

    /// The field `key` of `self`, where `self` is an object that has one.
    pub fn get(&self, key: &str) -> (r: Option<&JsonValue>)
        ensures
            match r {
                Some(v) => spec_get(*self, key@) == Some(*v),
                None => spec_get(*self, key@) is None,
            },
    {
        match self {
            JsonValue::Object(fields) => match find_field(fields, key) {
                Some(i) => Some(&fields[i].1),
                None => None,
            },
            _ => None,
        }
    }

    /// Whether `self` is the string `s`.
    pub fn is_str(&self, s: &str) -> (r: bool)
        ensures
            r == (*self is Str && self->Str_0@ == s@),
    {
        match self {
            JsonValue::Str(t) => *t == String::from_str(s),
            _ => false,
        }
    }

    /// Moves the field `key` out of `self`, where `self` is an object.
    pub fn take(self, key: &str) -> (r: Option<JsonValue>)
        ensures
            r == spec_get(self, key@),
    {
        match self {
            JsonValue::Object(mut fields) => match find_field(&fields, key) {
                Some(i) => {
                    let (_, v) = fields.remove(i);
                    Some(v)
                },
                None => None,
            },
            _ => None,
        }
    }
}

} // verus!
