//! JSON documents, read with `serde_json`.
//!
//! A document is held as a `serde_json::Value`, which this library never looks
//! into: it asks `serde_json` for the member of an object and for what a value
//! holds. The contracts speak of the document's mathematical form, `Json`.
//! Everything in this file is taken on trust from `serde_json`; nothing of it
//! is proved here.

use vstd::prelude::*;

verus! {

/// `serde_json::Value`, a JSON document. Verus is told that the type is
/// there, and nothing of what a value of it holds.
#[verifier::external_type_specification]
#[verifier::external_body]
pub struct ExValue(serde_json::Value);

/// `serde_json::Error`, why bytes were refused. Nothing is read from it.
#[verifier::external_type_specification]
#[verifier::external_body]
pub struct ExError(serde_json::Error);

/// A JSON document as a mathematical value.
pub enum Json {
    Null,
    Bool(bool),
    /// A number that `serde_json` holds as an integer.
    Integer(int),
    /// A number that `serde_json` holds in floating point.
    Real,
    Text(Seq<char>),
    Array(Seq<Json>),
    /// An object: each key once, with its value.
    Object(Map<Seq<char>, Json>),
}

impl Json {
    /// The value under `key`, where this is an object that has the key.
    pub open spec fn member(self, key: Seq<char>) -> Option<Json> {
        match self {
            Json::Object(members) => if members.dom().contains(key) {
                Some(members[key])
            } else {
                None
            },
            _ => None,
        }
    }

    pub open spec fn as_bool(self) -> Option<bool> {
        match self {
            Json::Bool(b) => Some(b),
            _ => None,
        }
    }

    pub open spec fn as_text(self) -> Option<Seq<char>> {
        match self {
            Json::Text(text) => Some(text),
            _ => None,
        }
    }

    /// The number, where it is an integer that an `i64` can hold.
    pub open spec fn as_i64(self) -> Option<i64> {
        match self {
            Json::Integer(n) => if i64::MIN <= n <= i64::MAX {
                Some(n as i64)
            } else {
                None
            },
            _ => None,
        }
    }
}

/// The mathematical form of a `serde_json::Value`: `Null`, `Bool`, `String`,
/// `Array` and `Object` as they stand, a `Number` as `Integer` where it is
/// held as a `u64` or an `i64` and as `Real` where it is held as a float.
pub uninterp spec fn json_value(value: serde_json::Value) -> Json;

/// What `serde_json::from_slice` reads from `bytes` as a `Value`, in
/// mathematical form: `None` where it refuses them.
pub uninterp spec fn json_parse(bytes: Seq<u8>) -> Option<Json>;

/// `serde_json::from_slice`, asked for a `Value`: the document that the bytes
/// spell, or an error where they spell none. The result depends on the bytes
/// alone; the contract gives it its name, `json_parse`, and says no more of
/// it.
#[verifier::external_body]
pub(crate) fn from_slice(bytes: &[u8]) -> (parsed: Result<serde_json::Value, serde_json::Error>)
    ensures
        match parsed {
            Ok(value) => json_parse(bytes@) == Some(json_value(value)),
            Err(_) => json_parse(bytes@) is None,
        },
{
    serde_json::from_slice::<serde_json::Value>(bytes)
}

/// `serde_json::Value::get` with a text as index: the value under that key
/// where `value` is an object that has the key, and `None` otherwise, be it
/// that the object lacks the key or that `value` is no object.
#[verifier::external_body]
pub(crate) fn get<'a>(value: &'a serde_json::Value, key: &str) -> (found: Option<&'a serde_json::Value>)
    ensures
        match found {
            Some(inner) => json_value(*value).member(key@) == Some(json_value(*inner)),
            None => json_value(*value).member(key@) is None,
        },
{
    value.get(key)
}

/// `serde_json::Value::as_bool` gives the boolean where the value is one, and
/// `None` otherwise.
pub assume_specification[ serde_json::Value::as_bool ](value: &serde_json::Value) -> (held: Option<bool>)
    ensures
        held == json_value(*value).as_bool(),
;

/// `serde_json::Value::as_str` gives the text where the value is a string,
/// and `None` otherwise.
pub assume_specification<'a>[ serde_json::Value::as_str ](value: &'a serde_json::Value) -> (held: Option<&'a str>)
    ensures
        match held {
            Some(text) => json_value(*value).as_text() == Some(text@),
            None => json_value(*value).as_text() is None,
        },
;

/// `serde_json::Value::as_i64` gives the number where the value is a number
/// held as an integer that an `i64` can hold, and `None` otherwise.
pub assume_specification[ serde_json::Value::as_i64 ](value: &serde_json::Value) -> (held: Option<i64>)
    ensures
        held == json_value(*value).as_i64(),
;

/// `serde_json::Value::is_null` tells whether the value is `null`.
pub assume_specification[ serde_json::Value::is_null ](value: &serde_json::Value) -> (null: bool)
    ensures
        null == (json_value(*value) is Null),
;

} // verus!
