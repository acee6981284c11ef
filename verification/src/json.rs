//! The part of `serde_json` that the server relies on.
//!
//! A JSON value is carried through the library as a `serde_json::Value`
//! whose inside the proofs never look at. What `serde_json` computes from
//! or for such a value is given a name here, one per function of
//! `serde_json`, and the functions below are the only places that call it.
//! Their contracts are taken on trust: they say that each call yields what
//! its name stands for, and nothing about what that is.

use vstd::prelude::*;

verus! {

/// `serde_json::Value`, any JSON value; nothing is known of its inside.
#[verifier::external_type_specification]
#[verifier::external_body]
pub struct ExValue(serde_json::Value);

/// `serde_json::Error`, what reading or writing JSON reports when it fails;
/// nothing is known of its inside.
#[verifier::external_type_specification]
#[verifier::external_body]
pub struct ExError(serde_json::Error);

/// The value that `serde_json::from_str` reads from `text`; `None` where it
/// reports an error (no JSON, or something after the value).
pub uninterp spec fn json_value_of(text: Seq<char>) -> Option<serde_json::Value>;

/// The elements that `serde_json::from_slice` reads from `bytes` as a list
/// of values; `None` where it reports an error (no JSON, or not an array).
pub uninterp spec fn json_list_of(bytes: Seq<u8>) -> Option<Seq<serde_json::Value>>;

/// What `value[key]` refers to: the member `key` of an object, and `null`
/// where `value` is no object or has no such member.
pub uninterp spec fn json_member(value: serde_json::Value, key: Seq<char>) -> serde_json::Value;

/// The text that `Value::as_str` returns: the content of a JSON string, and
/// `None` for every other kind of value.
pub uninterp spec fn json_str(value: serde_json::Value) -> Option<Seq<char>>;

/// The JSON string that `Value::from` makes of a `String`.
pub uninterp spec fn json_string(text: Seq<char>) -> serde_json::Value;

/// The JSON array that `Value::from` makes of a vector of values.
pub uninterp spec fn json_array(items: Seq<serde_json::Value>) -> serde_json::Value;

/// The JSON object that `Value::from_iter` collects from pairs of a key and
/// a value.
pub uninterp spec fn json_object(members: Seq<(Seq<char>, serde_json::Value)>) -> serde_json::Value;

/// The text that `serde_json::to_string` writes for `value`: JSON on one
/// line without spaces; `None` where it reports an error.
pub uninterp spec fn json_compact(value: serde_json::Value) -> Option<Seq<char>>;

/// The text that `serde_json::to_string_pretty` writes for `value`: JSON
/// over several lines, indented by two spaces; `None` where it reports an
/// error.
pub uninterp spec fn json_pretty(value: serde_json::Value) -> Option<Seq<char>>;

/// The members as `json_object` takes them: each key by its characters.
pub open spec fn member_views(
    members: Seq<(String, serde_json::Value)>,
) -> Seq<(Seq<char>, serde_json::Value)> {
    members.map_values(|member: (String, serde_json::Value)| (member.0@, member.1))
}

/// `Value::clone` returns a value equal to the one it is given.
pub assume_specification[ <serde_json::Value as Clone>::clone ](
    value: &serde_json::Value,
) -> (copy: serde_json::Value)
    ensures
        copy == *value,
;

/// `serde_json::from_str`, reading one `Value`: succeeds exactly where
/// `json_value_of` is defined, with that value.
#[verifier::external_body]
pub(crate) fn read_value(text: &str) -> (read: Result<serde_json::Value, serde_json::Error>)
    ensures
        read is Ok == json_value_of(text@) is Some,
        read is Ok ==> read->Ok_0 == json_value_of(text@)->0,
{
    serde_json::from_str::<serde_json::Value>(text)
}

/// `serde_json::from_slice`, reading a `Vec<Value>`: succeeds exactly where
/// `json_list_of` is defined, with those elements in order.
#[verifier::external_body]
pub(crate) fn read_list(bytes: &[u8]) -> (read: Result<Vec<serde_json::Value>, serde_json::Error>)
    ensures
        read is Ok == json_list_of(bytes@) is Some,
        read is Ok ==> read->Ok_0@ == json_list_of(bytes@)->0,
{
    serde_json::from_slice::<Vec<serde_json::Value>>(bytes)
}

/// Indexing a `Value` by a string: a reference to `json_member`.
#[verifier::external_body]
pub(crate) fn member<'a>(value: &'a serde_json::Value, key: &str) -> (found: &'a serde_json::Value)
    ensures
        *found == json_member(*value, key@),
{
    &value[key]
}

/// `Value::as_str`: the content of a string value, as `json_str` has it.
#[verifier::external_body]
pub(crate) fn as_text<'a>(value: &'a serde_json::Value) -> (text: Option<&'a str>)
    ensures
        text is Some == json_str(*value) is Some,
        text is Some ==> text->0@ == json_str(*value)->0,
{
    value.as_str()
}

/// `Value::from` on a `String`: the JSON string `json_string`.
#[verifier::external_body]
pub(crate) fn string_value(text: String) -> (value: serde_json::Value)
    ensures
        value == json_string(text@),
{
    serde_json::Value::from(text)
}

/// `Value::from` on a vector of values: the JSON array `json_array`.
#[verifier::external_body]
pub(crate) fn array_value(items: Vec<serde_json::Value>) -> (value: serde_json::Value)
    ensures
        value == json_array(items@),
{
    serde_json::Value::from(items)
}

/// `Value::from_iter` on pairs of a key and a value: the JSON object
/// `json_object`.
#[verifier::external_body]
pub(crate) fn object_value(members: Vec<(String, serde_json::Value)>) -> (value: serde_json::Value)
    ensures
        value == json_object(member_views(members@)),
{
    members.into_iter().collect::<serde_json::Value>()
}

/// `serde_json::to_string` on a `Value`: succeeds exactly where
/// `json_compact` is defined, with that text.
#[verifier::external_body]
pub(crate) fn write_compact(value: &serde_json::Value) -> (written: Result<String, serde_json::Error>)
    ensures
        written is Ok == json_compact(*value) is Some,
        written is Ok ==> written->Ok_0@ == json_compact(*value)->0,
{
    serde_json::to_string(value)
}

/// `serde_json::to_string_pretty` on a `Value`: succeeds exactly where
/// `json_pretty` is defined, with that text.
#[verifier::external_body]
pub(crate) fn write_pretty(value: &serde_json::Value) -> (written: Result<String, serde_json::Error>)
    ensures
        written is Ok == json_pretty(*value) is Some,
        written is Ok ==> written->Ok_0@ == json_pretty(*value)->0,
{
    serde_json::to_string_pretty(value)
}

} // verus!
