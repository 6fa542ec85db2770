//! Reading JSON documents through `serde_json`.
//!
//! A document stays a value of `serde_json`. Contracts speak of it through
//! `JsonModel`, the mathematical content of a JSON value.

use vstd::prelude::*;

verus! {

/// What a JSON value holds.
pub enum JsonModel {
    Null,
    Bool(bool),
    /// A number that `serde_json` holds as an integer.
    Integer(int),
    /// Any other number.
    Fraction,
    Text(Seq<char>),
    Array(Seq<JsonModel>),
    Object(Map<Seq<char>, JsonModel>),
}

/// `serde_json::Value`, a JSON document. What one holds is told by
/// `json_content`.
#[verifier::external_type_specification]
#[verifier::external_body]
pub struct ExJsonValue(serde_json::Value);

/// `serde_json::Error`, the parser's error. Nothing is said of what it holds.
#[verifier::external_type_specification]
#[verifier::external_body]
pub struct ExJsonError(serde_json::Error);

/// The content of a value of `serde_json`.
pub uninterp spec fn json_content(value: serde_json::Value) -> JsonModel;

/// The content of the document that a text denotes under `serde_json`'s
/// grammar, where it denotes one.
pub uninterp spec fn json_parse(text: Seq<char>) -> Option<JsonModel>;

/// `serde_json::from_str` at the type `serde_json::Value`: the document that
/// the whole text denotes, or the parser's error where it denotes none.
/// Which of the two, and which document, depends on the text alone.
#[verifier::external_body]
fn parse_document(text: &str) -> (parsed: Result<serde_json::Value, serde_json::Error>)
    ensures
        match parsed {
            Ok(value) => json_parse(text@) == Some(json_content(value)),
            Err(_) => json_parse(text@) is None,
        },
{
    serde_json::from_str::<serde_json::Value>(text)
}

/// The member of an object under a key; none where the value is no object
/// or has no member under that key.
pub open spec fn member_of(document: JsonModel, key: Seq<char>) -> Option<JsonModel> {
    match document {
        JsonModel::Object(members) => if members.contains_key(key) {
            Some(members[key])
        } else {
            None
        },
        _ => None,
    }
}

/// The text of a JSON string; none for any other value.
pub open spec fn text_in(content: JsonModel) -> Option<Seq<char>> {
    match content {
        JsonModel::Text(s) => Some(s),
        _ => None,
    }
}

/// The number of an integer that fits `i64`; none for any other value.
pub open spec fn integer_in(content: JsonModel) -> Option<i64> {
    match content {
        JsonModel::Integer(n) => if i64::MIN <= n <= i64::MAX {
            Some(n as i64)
        } else {
            None
        },
        _ => None,
    }
}

/// `serde_json::Value::get` with a string as the index: the member of an
/// object under that key, and nothing where the value is no object or has no
/// such member.
#[verifier::external_body]
fn member<'a>(value: &'a serde_json::Value, key: &str) -> (found: Option<&'a serde_json::Value>)
    ensures
        match found {
            Some(inner) => member_of(json_content(*value), key@) == Some(json_content(*inner)),
            None => member_of(json_content(*value), key@) is None,
        },
{
    value.get(key)
}

/// `serde_json::Value::as_str`: the text of a JSON string, and nothing for
/// any other value.
pub assume_specification<'a>[ serde_json::Value::as_str ](value: &'a serde_json::Value) -> (text:
    Option<&'a str>)
    ensures
        match text {
            Some(s) => text_in(json_content(*value)) == Some(s@),
            None => text_in(json_content(*value)) is None,
        },
;

/// `serde_json::Value::as_i64`: the number, where the value is an integer
/// that fits `i64`, and nothing for any other value.
pub assume_specification[ serde_json::Value::as_i64 ](value: &serde_json::Value) -> (number:
    Option<i64>)
    ensures
        number == integer_in(json_content(*value)),
;

/// The text under a key, where the document is an object that holds a JSON
/// string there.
pub open spec fn text_member(document: JsonModel, key: Seq<char>) -> Option<Seq<char>> {
    match member_of(document, key) {
        Some(content) => text_in(content),
        None => None,
    }
}

/// The integer under a key, where the document is an object that holds
/// there an integer that fits `i64`.
pub open spec fn integer_member(document: JsonModel, key: Seq<char>) -> Option<i64> {
    match member_of(document, key) {
        Some(content) => integer_in(content),
        None => None,
    }
}

/// Parses a text as one JSON document.
pub fn parse(text: &str) -> (document: Option<serde_json::Value>)
    ensures
        match document {
            Some(value) => json_parse(text@) == Some(json_content(value)),
            None => json_parse(text@) is None,
        },
{
    match parse_document(text) {
        Ok(value) => Some(value),
        Err(_) => None,
    }
}

/// The text under `key` in a document.
pub fn read_text(document: &serde_json::Value, key: &str) -> (text: Option<String>)
    ensures
        match text {
            Some(s) => text_member(json_content(*document), key@) == Some(s@),
            None => text_member(json_content(*document), key@) is None,
        },
{
    match member(document, key) {
        Some(inner) => match inner.as_str() {
            Some(s) => Some(s.to_owned()),
            None => None,
        },
        None => None,
    }
}

/// The integer under `key` in a document, where it fits `i64`.
pub fn read_integer(document: &serde_json::Value, key: &str) -> (number: Option<i64>)
    ensures
        number == integer_member(json_content(*document), key@),
{
    match member(document, key) {
        Some(inner) => inner.as_i64(),
        None => None,
    }
}

} // verus!
