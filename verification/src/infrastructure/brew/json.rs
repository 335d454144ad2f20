//! JSON values, read with `serde_json`. A value is opaque here: what it
//! holds is named, and the calls that read it say so over those names.

use serde_json::Value;
use vstd::prelude::*;

verus! {

#[verifier::external_type_specification]
#[verifier::external_body]
pub struct ExJsonValue(serde_json::Value);

#[verifier::external_type_specification]
#[verifier::external_body]
pub struct ExJsonError(serde_json::Error);

/// The value that `serde_json::from_str` reads from a text, or `None` where
/// it fails.
pub uninterp spec fn json_parsed(text: Seq<char>) -> Option<Value>;

/// What `Value::get` finds in a value under a key: the member of that name
/// where the value is an object and has one.
pub uninterp spec fn json_member(value: Value, key: Seq<char>) -> Option<Value>;

/// What `Value::as_str` finds in a value: its text where it is a string.
pub uninterp spec fn json_text(value: Value) -> Option<Seq<char>>;

/// What `Value::as_array` finds in a value: its elements where it is an
/// array.
pub uninterp spec fn json_items(value: Value) -> Option<Seq<Value>>;

/// `serde_json::from_str` for a `Value`: the value that the text stands
/// for, or the parser's error.
#[verifier::external_body]
pub(crate) fn json_parse(text: &str) -> (parsed: Result<Value, serde_json::Error>)
    ensures
        match parsed {
            Ok(value) => json_parsed(text@) == Some(value),
            Err(_) => json_parsed(text@) is None,
        },
{
    serde_json::from_str(text)
}

/// `Value::get` with a string key.
#[verifier::external_body]
pub(crate) fn json_get<'a>(value: &'a Value, key: &str) -> (member: Option<&'a Value>)
    ensures
        match member {
            Some(found) => json_member(*value, key@) == Some(*found),
            None => json_member(*value, key@) is None,
        },
{
    value.get(key)
}

/// `Value::as_str`.
#[verifier::external_body]
pub(crate) fn json_as_str<'a>(value: &'a Value) -> (text: Option<&'a str>)
    ensures
        match text {
            Some(found) => json_text(*value) == Some(found@),
            None => json_text(*value) is None,
        },
{
    value.as_str()
}

/// `Value::as_array`.
#[verifier::external_body]
pub(crate) fn json_as_array<'a>(value: &'a Value) -> (items: Option<&'a Vec<Value>>)
    ensures
        match items {
            Some(found) => json_items(*value) == Some(found@),
            None => json_items(*value) is None,
        },
{
    value.as_array()
}

/// `serde_json::Error`'s `to_string`: the parser's word on what is wrong.
#[verifier::external_body]
pub(crate) fn json_error_text(error: &serde_json::Error) -> String {
    error.to_string()
}

/// The text of the member under `key`, where there is one and it is a
/// string.
pub open spec fn member_text(item: Value, key: Seq<char>) -> Option<Seq<char>> {
    match json_member(item, key) {
        Some(member) => json_text(member),
        None => None,
    }
}

/// The first element of a value, where it is an array that has one.
pub open spec fn first_of(value: Value) -> Option<Value> {
    match json_items(value) {
        Some(items) => if items.len() > 0 {
            Some(items[0])
        } else {
            None
        },
        None => None,
    }
}

/// The first element of the member under `key`.
pub open spec fn member_first(item: Value, key: Seq<char>) -> Option<Value> {
    match json_member(item, key) {
        Some(member) => first_of(member),
        None => None,
    }
}

/// The text of a value as a new string.
pub fn text_of(value: &Value) -> (text: Option<String>)
    ensures
        crate::domain::entities::package::opt_text(text) == json_text(*value),
{
    match json_as_str(value) {
        Some(found) => Some(found.to_owned()),
        None => None,
    }
}

/// The text of the member under `key` as a new string.
pub fn member_text_of(item: &Value, key: &str) -> (text: Option<String>)
    ensures
        crate::domain::entities::package::opt_text(text) == member_text(*item, key@),
{
    match json_get(item, key) {
        Some(member) => text_of(member),
        None => None,
    }
}

/// The first element of a value.
pub fn first_item<'a>(value: &'a Value) -> (first: Option<&'a Value>)
    ensures
        match first {
            Some(found) => first_of(*value) == Some(*found),
            None => first_of(*value) is None,
        },
{
    match json_as_array(value) {
        Some(items) => if items.len() > 0 {
            Some(&items[0])
        } else {
            None
        },
        None => None,
    }
}

/// The first element of the member under `key`.
pub fn member_first_item<'a>(item: &'a Value, key: &str) -> (first: Option<&'a Value>)
    ensures
        match first {
            Some(found) => member_first(*item, key@) == Some(*found),
            None => member_first(*item, key@) is None,
        },
{
    match json_get(item, key) {
        Some(member) => first_item(member),
        None => None,
    }
}

} // verus!
