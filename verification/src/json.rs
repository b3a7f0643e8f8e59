//! The calls into `serde_json` that read a notification's payload.
//!
//! A parsed payload stays a value of `serde_json`. What the library reads of
//! it goes through the functions of this file, whose contracts are stated
//! over the names below and are taken on trust.

use serde_json::Value;
use vstd::prelude::*;

verus! {

/// A JSON value of `serde_json`. The library carries such values through;
/// what it reads of one, it reads through [`text_of`] and [`flag_of`].
#[verifier::external_type_specification]
#[verifier::external_body]
pub struct ExValue(serde_json::Value);

/// The JSON object of `serde_json`: a collection of members, each a value
/// under a key.
#[verifier::external_type_specification]
#[verifier::external_body]
#[verifier::reject_recursive_types(K)]
#[verifier::reject_recursive_types(V)]
pub struct ExObject<K, V>(serde_json::Map<K, V>);

/// The error of `serde_json`.
#[verifier::external_type_specification]
#[verifier::external_body]
pub struct ExError(serde_json::Error);

/// The members of the JSON object that `text` denotes, or `None` where
/// `serde_json` does not read `text` as an object.
pub uninterp spec fn parsed_object(text: Seq<char>) -> Option<Map<Seq<char>, Value>>;

/// The members that a JSON object holds, each under its key.
pub uninterp spec fn members(object: serde_json::Map<String, Value>) -> Map<Seq<char>, Value>;

/// The text of a JSON value that is a string, and `None` for any other value.
pub uninterp spec fn as_text(value: Value) -> Option<Seq<char>>;

/// The truth value of a JSON value that is a boolean, and `None` for any
/// other value.
pub uninterp spec fn as_flag(value: Value) -> Option<bool>;

/// Calls `serde_json::from_str` for a `serde_json::Map<String, Value>`. The
/// call reads the whole of `text` as one JSON document and fails unless that
/// document is an object. Its result depends on `text` alone; the contract
/// names it.
#[verifier::external_body]
pub(crate) fn parse_object(text: &str) -> (r: Result<
    serde_json::Map<String, Value>,
    serde_json::Error,
>)
    ensures
        match r {
            Ok(object) => parsed_object(text@) == Some(members(object)),
            Err(_) => parsed_object(text@) is None,
        },
{
    serde_json::from_str::<serde_json::Map<String, Value>>(text)
}

/// Calls `to_string` on the error of a failed parse, which renders what
/// `serde_json` found wrong and where. Nothing is claimed of the text.
#[verifier::external_body]
pub(crate) fn describe(error: &serde_json::Error) -> (text: String) {
    error.to_string()
}

/// Calls `serde_json::Map::get`, which returns the member under `key` where
/// the object has one.
#[verifier::external_body]
pub(crate) fn member<'a>(object: &'a serde_json::Map<String, Value>, key: &str) -> (r: Option<
    &'a Value,
>)
    ensures
        match r {
            Some(value) => members(*object).contains_key(key@) && members(*object)[key@] == *value,
            None => !members(*object).contains_key(key@),
        },
{
    object.get(key)
}

/// Calls `Value::as_str`, which returns the text of a string value and `None`
/// for a value of any other kind.
#[verifier::external_body]
pub(crate) fn text_of<'a>(value: &'a Value) -> (r: Option<&'a str>)
    ensures
        match r {
            Some(text) => as_text(*value) == Some(text@),
            None => as_text(*value) is None,
        },
{
    value.as_str()
}

/// Calls `Value::as_bool`, which returns the truth value of a boolean value
/// and `None` for a value of any other kind.
#[verifier::external_body]
pub(crate) fn flag_of(value: &Value) -> (r: Option<bool>)
    ensures
        r == as_flag(*value),
{
    value.as_bool()
}

/// Calls `Value::clone`, which returns an equal value.
#[verifier::external_body]
pub(crate) fn copy_of(value: &Value) -> (r: Value)
    ensures
        r == *value,
{
    value.clone()
}

} // verus!
