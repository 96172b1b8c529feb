//! JSON documents as `serde_json` reads them. Nothing here is proved: each
//! function hands its work to `serde_json` and states what that crate does.

use serde_json::Value;
use vstd::prelude::*;

verus! {

#[verifier::external_type_specification]
#[verifier::external_body]
pub struct ExValue(serde_json::Value);

#[verifier::external_type_specification]
#[verifier::external_body]
pub struct ExError(serde_json::Error);

/// A JSON document as contracts see it. A number is known only to be one:
/// nothing in this crate reads its value.
pub enum Json {
    Null,
    Bool(bool),
    Number,
    Text(Seq<char>),
    Array(Seq<Json>),
    Object(Map<Seq<char>, Json>),
}

/// The document that a `serde_json::Value` holds.
pub uninterp spec fn json_of(value: Value) -> Json;

/// The document that `serde_json::from_str` reads from `text`, or `None`
/// where it reports an error.
pub uninterp spec fn json_parsed(text: Seq<char>) -> Option<Json>;

/// `serde_json::from_str` at `Value`. What it returns depends on the text
/// alone: the document named `json_parsed`, or an error where there is none.
#[verifier::external_body]
pub(crate) fn parse(text: &str) -> (parsed: Result<Value, serde_json::Error>)
    ensures
        match parsed {
            Ok(value) => json_parsed(text@) == Some(json_of(value)),
            Err(_) => json_parsed(text@) is None,
        },
{
    serde_json::from_str(text)
}

/// `Value::as_array`: the elements of an array, in order, and `None` for
/// every other value.
#[verifier::external_body]
pub(crate) fn as_array(value: &Value) -> (items: Option<&Vec<Value>>)
    ensures
        match items {
            Some(items) => json_of(*value) == Json::Array(
                items@.map_values(|item: Value| json_of(item)),
            ),
            None => !(json_of(*value) is Array),
        },
{
    value.as_array()
}

/// `Value::as_str`: the text of a string, and `None` for every other value.
#[verifier::external_body]
pub(crate) fn as_str(value: &Value) -> (text: Option<&str>)
    ensures
        match text {
            Some(text) => json_of(*value) == Json::Text(text@),
            None => !(json_of(*value) is Text),
        },
{
    value.as_str()
}

/// `Value::get` with a string index: the member of an object under `key`,
/// and `None` where the value is no object or has no such member.
#[verifier::external_body]
pub(crate) fn member<'a>(value: &'a Value, key: &str) -> (found: Option<&'a Value>)
    ensures
        match found {
            Some(member) => json_of(*value) matches Json::Object(members) && members.contains_key(
                key@,
            ) && members[key@] == json_of(*member),
            None => !(json_of(*value) matches Json::Object(members) && members.contains_key(key@)),
        },
{
    value.get(key)
}

} // verus!
