//! The JSON library as this crate uses it: a JSON value is read from text
//! and looked into through five of the library's functions. What they return
//! is not proved here; each contract says what the library's source shows.

use vstd::prelude::*;

verus! {

/// A JSON value of the JSON library. Nothing inside it is visible here; it is
/// read through the functions below.
#[verifier::external_type_specification]
#[verifier::external_body]
pub struct ExJsonValue(serde_json::Value);

/// The JSON value that a text writes, or nothing where the text is no JSON.
pub uninterp spec fn json_value(text: Seq<char>) -> Option<serde_json::Value>;

/// The member of a JSON object under a key; nothing where the value is no
/// object or the object has no such member.
pub uninterp spec fn json_member(value: serde_json::Value, key: Seq<char>) -> Option<
    serde_json::Value,
>;

/// The characters of a JSON string; nothing for any other value.
pub uninterp spec fn json_text(value: serde_json::Value) -> Option<Seq<char>>;

/// The items of a JSON array, in order; nothing for any other value.
pub uninterp spec fn json_items(value: serde_json::Value) -> Option<Seq<serde_json::Value>>;

/// Whether the value is JSON's `null`.
pub uninterp spec fn json_is_null(value: serde_json::Value) -> bool;

/// Calls `serde_json::from_str` with `serde_json::Value` as the target type.
/// It reads one JSON value of any kind from the whole text and returns an
/// error, given here as `None`, where the text is no JSON or nests too
/// deeply. The result depends on the text alone; the contracts call it
/// `json_value`.
#[verifier::external_body]
pub(crate) fn decode_value(text: &str) -> (value: Option<serde_json::Value>)
    ensures
        value == json_value(text@),
{
    serde_json::from_str::<serde_json::Value>(text).ok()
}

/// Calls `serde_json::Value::get` with a text as the index: the member of
/// that name where the value is an object that has one, else `None`. The
/// contracts call the result `json_member`.
#[verifier::external_body]
pub(crate) fn member<'a>(value: &'a serde_json::Value, key: &str) -> (found: Option<&'a serde_json::Value>)
    ensures
        match found {
            Some(inner) => json_member(*value, key@) == Some(*inner),
            None => json_member(*value, key@) is None,
        },
{
    value.get(key)
}

/// Calls `serde_json::Value::as_str`: the text of a JSON string, `None` for
/// any other value. The contracts call the result `json_text`.
#[verifier::external_body]
pub(crate) fn string_of<'a>(value: &'a serde_json::Value) -> (found: Option<&'a str>)
    ensures
        match found {
            Some(inner) => json_text(*value) == Some(inner@),
            None => json_text(*value) is None,
        },
{
    value.as_str()
}

/// Calls `serde_json::Value::as_array`: the items of a JSON array, `None`
/// for any other value. The contracts call the result `json_items`.
#[verifier::external_body]
pub(crate) fn items_of<'a>(value: &'a serde_json::Value) -> (found: Option<&'a Vec<serde_json::Value>>)
    ensures
        match found {
            Some(inner) => json_items(*value) == Some(inner@),
            None => json_items(*value) is None,
        },
{
    value.as_array()
}

/// Calls `serde_json::Value::is_null`. The contracts call the result
/// `json_is_null`.
#[verifier::external_body]
pub(crate) fn is_null(value: &serde_json::Value) -> (null: bool)
    ensures
        null == json_is_null(*value),
{
    value.is_null()
}

} // verus!
