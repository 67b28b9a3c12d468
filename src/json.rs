//! A plain model of JSON values, the one call that parses JSON text into it,
//! and field lookup on objects.
use vstd::prelude::*;
use crate::text::{chars_of, chars_equal};

verus! {

#[verifier::external_type_specification]
#[verifier::external_body]
pub struct ExJsonDocument(serde_json::Value);

/// A JSON number: its value when it is an integer that fits in `i64`, and its
/// decimal text.
pub struct JsonNumber {
    pub int_value: Option<i64>,
    pub text: String,
}

/// A JSON value. Objects keep their members as key/value pairs.
pub enum JsonValue {
    Null,
    Bool(bool),
    Number(JsonNumber),
    Str(String),
    Array(Vec<JsonValue>),
    Object(Vec<(String, JsonValue)>),
}

/// The value that the JSON text `text` denotes, or `None` where `text` is not
/// one JSON document.
pub uninterp spec fn json_document(text: Seq<char>) -> Option<JsonValue>;

/// Relies on `serde_json::from_str::<serde_json::Value>`: the value depends on
/// the text alone, and the empty text is no JSON document.
#[verifier::external_body]
pub(crate) fn parse_json(text: &str) -> (r: Option<JsonValue>)
    ensures
        r == json_document(text@),
        text@.len() == 0 ==> r.is_none(),
{
    serde_json::from_str::<serde_json::Value>(text).ok().map(json_from_document)
}

/// Moves a `serde_json::Value` into the plain model, variant by variant; a
/// number keeps `serde_json::Number::as_i64` and its `Display` text.
#[verifier::external_body]
fn json_from_document(v: serde_json::Value) -> JsonValue {
    match v {
        serde_json::Value::Null => JsonValue::Null,
        serde_json::Value::Bool(b) => JsonValue::Bool(b),
        serde_json::Value::Number(n) => JsonValue::Number(
            JsonNumber { int_value: n.as_i64(), text: n.to_string() },
        ),
        serde_json::Value::String(s) => JsonValue::Str(s),
        serde_json::Value::Array(a) => JsonValue::Array(a.into_iter().map(json_from_document).collect()),
        serde_json::Value::Object(m) => JsonValue::Object(
            m.into_iter().map(|(k, x)| (k, json_from_document(x))).collect(),
        ),
    }
}

/// The value of the first member named `key`.
pub open spec fn lookup(fields: Seq<(String, JsonValue)>, key: Seq<char>) -> Option<JsonValue>
    decreases fields.len(),
{
    if fields.len() == 0 {
        None
    } else if fields[0].0@ == key {
        Some(fields[0].1)
    } else {
        lookup(fields.drop_first(), key)
    }
}

/// The member `key` of `v`, where `v` is an object that has one.
pub open spec fn field(v: JsonValue, key: Seq<char>) -> Option<JsonValue> {
    match v {
        JsonValue::Object(fields) => lookup(fields@, key),
        _ => None,
    }
}

/// The member `key` of `v`, where it is a string.
pub open spec fn str_field(v: JsonValue, key: Seq<char>) -> Option<Seq<char>> {
    match field(v, key) {
        Some(JsonValue::Str(s)) => Some(s@),
        _ => None,
    }
}

/// The member `key` of `v`, where it is a boolean.
pub open spec fn bool_field(v: JsonValue, key: Seq<char>) -> Option<bool> {
    match field(v, key) {
        Some(JsonValue::Bool(b)) => Some(b),
        _ => None,
    }
}

/// The member `key` of `v`, where it is an integer that fits in `i64`.
pub open spec fn int_field(v: JsonValue, key: Seq<char>) -> Option<i64> {
    match field(v, key) {
        Some(JsonValue::Number(n)) => n.int_value,
        _ => None,
    }
}

/// The decimal text of the member `key` of `v`, where it is a number.
pub open spec fn number_field(v: JsonValue, key: Seq<char>) -> Option<Seq<char>> {
    match field(v, key) {
        Some(JsonValue::Number(n)) => Some(n.text@),
        _ => None,
    }
}

/// The index of the first member named `key`, if any.
pub fn find_member(fields: &Vec<(String, JsonValue)>, key: &str) -> (r: Option<usize>)
    ensures
        match r {
            Some(i) => i < fields@.len() && lookup(fields@, key@) == Some(fields@[i as int].1),
            None => lookup(fields@, key@).is_none(),
        },
{
    let k = chars_of(key);
    let mut i: usize = 0;
    assert(fields@.subrange(0, fields@.len() as int) =~= fields@);
    while i < fields.len()
        invariant
            i <= fields@.len(),
            k@ == key@,
            lookup(fields@, key@) == lookup(fields@.subrange(i as int, fields@.len() as int), key@),
        decreases fields.len() - i,
    {
        let ghost rest = fields@.subrange(i as int, fields@.len() as int);
        assert(rest.drop_first() =~= fields@.subrange(i + 1, fields@.len() as int));
        let name = chars_of(fields[i].0.as_str());
        if chars_equal(&name, &k) {
            assert(rest[0] == fields@[i as int]);
            return Some(i);
        }
        i += 1;
    }
    None
}

/// The member `key` of `v`, moved out of it.
pub fn take_field(v: JsonValue, key: &str) -> (r: Option<JsonValue>)
    ensures
        r == field(v, key@),
{
    match v {
        JsonValue::Object(mut fields) => {
            match find_member(&fields, key) {
                Some(i) => {
                    let (_, x) = fields.remove(i);
                    Some(x)
                },
                None => None,
            }
        },
        _ => None,
    }
}

impl JsonValue {
    pub open spec fn is_object_value(&self) -> bool {
        self is Object
    }

    /// Whether this value is an object.
    pub fn is_object(&self) -> (r: bool)
        ensures
            r == self.is_object_value(),
    {
        match self {
            JsonValue::Object(_) => true,
            _ => false,
        }
    }

    /// The member `key` of this value, where it is an object that has one.
    pub fn get(&self, key: &str) -> (r: Option<&JsonValue>)
        ensures
            match r {
                Some(x) => field(*self, key@) == Some(*x),
                None => field(*self, key@).is_none(),
            },
    {
        match self {
            JsonValue::Object(fields) => match find_member(fields, key) {
                Some(i) => Some(&fields[i].1),
                None => None,
            },
            _ => None,
        }
    }

    /// The member `key`, where it is a string.
    pub fn get_str(&self, key: &str) -> (r: Option<&String>)
        ensures
            match r {
                Some(s) => str_field(*self, key@) == Some(s@),
                None => str_field(*self, key@).is_none(),
            },
    {
        match self.get(key) {
            Some(JsonValue::Str(s)) => Some(s),
            _ => None,
        }
    }

    /// The member `key`, where it is a boolean.
    pub fn get_bool(&self, key: &str) -> (r: Option<bool>)
        ensures
            r == bool_field(*self, key@),
    {
        match self.get(key) {
            Some(JsonValue::Bool(b)) => Some(*b),
            _ => None,
        }
    }

    /// The member `key`, where it is an integer that fits in `i64`.
    pub fn get_i64(&self, key: &str) -> (r: Option<i64>)
        ensures
            r == int_field(*self, key@),
    {
        match self.get(key) {
            Some(JsonValue::Number(n)) => n.int_value,
            _ => None,
        }
    }

    /// The decimal text of the member `key`, where it is a number.
    pub fn get_number_text(&self, key: &str) -> (r: Option<String>)
        ensures
            match r {
                Some(s) => number_field(*self, key@) == Some(s@),
                None => number_field(*self, key@).is_none(),
            },
    {
        match self.get(key) {
            Some(JsonValue::Number(n)) => Some(n.text.clone()),
            _ => None,
        }
    }
}

} // verus!
