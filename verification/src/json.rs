//! JSON documents, by way of the `serde_json` crate.

use vstd::prelude::*;

use crate::text;

verus! {

/// A value of `serde_json`.
#[verifier::external_type_specification]
#[verifier::external_body]
pub struct ExValue(serde_json::Value);

/// What a JSON value holds.
pub enum Json {
    Null,
    Bool(bool),
    Number,
    Text(Seq<char>),
    List(Seq<Json>),
    Object(Map<Seq<char>, Json>),
}

/// What a value of `serde_json` holds.
pub uninterp spec fn content(v: serde_json::Value) -> Json;

/// What values of `serde_json` hold, in order.
pub open spec fn contents(s: Seq<serde_json::Value>) -> Seq<Json> {
    s.map_values(|v: serde_json::Value| content(v))
}

/// The document that a text spells; none where it spells none.
pub uninterp spec fn document(s: Seq<char>) -> Option<Json>;

/// The document that bytes spell; none where they spell none.
pub uninterp spec fn document_in(bytes: Seq<u8>) -> Option<Json>;

/// The member of an object.
pub open spec fn member_of(j: Json, key: Seq<char>) -> Option<Json> {
    match j {
        Json::Object(m) => if m.dom().contains(key) {
            Some(m[key])
        } else {
            None
        },
        _ => None,
    }
}

/// The text that a value is.
pub open spec fn text_of(j: Json) -> Option<Seq<char>> {
    match j {
        Json::Text(s) => Some(s),
        _ => None,
    }
}

/// The text of a member of an object.
pub open spec fn text_member_of(j: Json, key: Seq<char>) -> Option<Seq<char>> {
    match member_of(j, key) {
        Some(m) => text_of(m),
        None => None,
    }
}

/// Reads a document with `serde_json::from_str`. Which document a text spells has only a name
/// here; the value that comes back holds that document.
#[verifier::external_body]
pub(crate) fn parse(s: &str) -> (r: Option<serde_json::Value>)
    ensures
        match r {
            Some(v) => document(s@) == Some(content(v)),
            None => document(s@) is None,
        },
{
    serde_json::from_str(s).ok()
}

/// Reads a document with `serde_json::from_slice`. Which document bytes spell has only a name
/// here; the value that comes back holds that document.
#[verifier::external_body]
pub(crate) fn parse_bytes(bytes: &[u8]) -> (r: Option<serde_json::Value>)
    ensures
        match r {
            Some(v) => document_in(bytes@) == Some(content(v)),
            None => document_in(bytes@) is None,
        },
{
    serde_json::from_slice(bytes).ok()
}

/// Finds a member with `serde_json::Value::get`: that of an object under this key, and none
/// where there is no such member or the value is no object.
#[verifier::external_body]
pub(crate) fn member<'a>(v: &'a serde_json::Value, key: &str) -> (r: Option<&'a serde_json::Value>)
    ensures
        match r {
            Some(m) => member_of(content(*v), key@) == Some(content(*m)),
            None => member_of(content(*v), key@) is None,
        },
{
    v.get(key)
}

/// Reads the items of a list with `serde_json::Value::as_array`: none where the value is no list.
#[verifier::external_body]
pub(crate) fn items(v: &serde_json::Value) -> (r: Option<&Vec<serde_json::Value>>)
    ensures
        match r {
            Some(l) => content(*v) == Json::List(contents(l@)),
            None => content(*v) !is List,
        },
{
    v.as_array()
}

/// Reads a text with `serde_json::Value::as_str`: none where the value is no text.
#[verifier::external_body]
pub(crate) fn as_text(v: &serde_json::Value) -> (r: Option<&str>)
    ensures
        match r {
            Some(s) => content(*v) == Json::Text(s@),
            None => content(*v) !is Text,
        },
{
    v.as_str()
}

/// Reads the text of a member.
pub fn text_member(v: &serde_json::Value, key: &str) -> (r: Option<String>)
    ensures
        text::opt(r) == text_member_of(content(*v), key@),
{
    match member(v, key) {
        None => None,
        Some(m) => match as_text(m) {
            None => None,
            Some(s) => Some(s.to_owned()),
        },
    }
}

} // verus!
