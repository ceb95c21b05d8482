//! The JSON layer. Documents are parsed and rendered by `serde_json`. Its
//! `Value` is opaque here; what a document holds is modelled by [`Json`], and
//! the contracts of the calls into `serde_json` say over that model what its
//! source shows. Which document a text parses to, and which text a document
//! is rendered as, is not modelled: the two are named and left at that.
//! Nothing in this module is proved of `serde_json`; the rest of the crate is
//! proved from these contracts.

use vstd::prelude::*;
use vstd::string::*;

verus! {

/// A parsed JSON document, as `serde_json` holds it.
#[verifier::external_type_specification]
#[verifier::external_body]
pub struct ExValue(serde_json::Value);

/// The error of a failed parse.
#[verifier::external_type_specification]
#[verifier::external_body]
pub struct ExJsonError(serde_json::Error);

/// A JSON number: a whole number from zero up, a whole number below zero,
/// or any other number, which is known by its bits alone.
pub enum Number {
    Unsigned(u64),
    Negative(i64),
    Float(u64),
}

/// A JSON document as a mathematical value.
pub enum Json {
    Null,
    Bool(bool),
    Number(Number),
    Text(Seq<char>),
    List(Seq<Json>),
    Object(Map<Seq<char>, Json>),
}

impl Json {
    /// The member of an object under a key. Only objects have members.
    pub open spec fn member(self, key: Seq<char>) -> Option<Json> {
        match self {
            Json::Object(members) => if members.dom().contains(key) {
                Some(members[key])
            } else {
                None
            },
            _ => None,
        }
    }

    /// The number, where the document is a whole number from zero up.
    pub open spec fn as_u64(self) -> Option<u64> {
        match self {
            Json::Number(Number::Unsigned(n)) => Some(n),
            _ => None,
        }
    }

    /// The number, where the document is a whole number that fits `i64`.
    pub open spec fn as_i64(self) -> Option<i64> {
        match self {
            Json::Number(Number::Unsigned(n)) => if n <= i64::MAX {
                Some(n as i64)
            } else {
                None
            },
            Json::Number(Number::Negative(n)) => Some(n),
            _ => None,
        }
    }

    /// The text, where the document is a string.
    pub open spec fn as_text(self) -> Option<Seq<char>> {
        match self {
            Json::Text(s) => Some(s),
            _ => None,
        }
    }

    /// The truth value, where the document is one.
    pub open spec fn as_bool(self) -> Option<bool> {
        match self {
            Json::Bool(b) => Some(b),
            _ => None,
        }
    }
}

/// What a document holds.
pub uninterp spec fn json_view(doc: serde_json::Value) -> Json;

/// The document that a text parses to, if it is one JSON document.
pub uninterp spec fn json_parsed(text: Seq<char>) -> Option<Json>;

/// The compact rendering of a document.
pub uninterp spec fn json_text(doc: Json) -> Seq<char>;

/// `serde_json::from_str` at `Value`: the parsed document, or the parser's
/// error where the text is not one JSON document. The same text always
/// parses to a document that holds the same.
#[verifier::external_body]
pub(crate) fn parse(text: &str) -> (r: Result<serde_json::Value, serde_json::Error>)
    ensures
        match r {
            Ok(doc) => json_parsed(text@) == Some(json_view(doc)),
            Err(_) => json_parsed(text@) is None,
        },
{
    serde_json::from_str::<serde_json::Value>(text)
}

/// `Value::get` with a string key: the member of that name when the document
/// is an object that has one, and nothing for any other document or key.
#[verifier::external_body]
pub(crate) fn member<'a>(doc: &'a serde_json::Value, key: &str) -> (r: Option<&'a serde_json::Value>)
    ensures
        match r {
            Some(m) => json_view(*doc).member(key@) == Some(json_view(*m)),
            None => json_view(*doc).member(key@) is None,
        },
{
    doc.get(key)
}

/// `Value::as_u64`: the number, where the document is a whole number from
/// zero up, and nothing for any other document.
pub assume_specification[ serde_json::Value::as_u64 ](doc: &serde_json::Value) -> (r: Option<u64>)
    ensures
        r == json_view(*doc).as_u64(),
;

/// `Value::as_i64`: the number, where the document is a whole number that
/// fits `i64`, and nothing for any other document.
pub assume_specification[ serde_json::Value::as_i64 ](doc: &serde_json::Value) -> (r: Option<i64>)
    ensures
        r == json_view(*doc).as_i64(),
;

/// `Value::as_bool`: the truth value, where the document is one, and
/// nothing for any other document.
pub assume_specification[ serde_json::Value::as_bool ](doc: &serde_json::Value) -> (r: Option<bool>)
    ensures
        r == json_view(*doc).as_bool(),
;

/// `Value::is_null`: whether the document is `null`.
pub assume_specification[ serde_json::Value::is_null ](doc: &serde_json::Value) -> (r: bool)
    ensures
        r == (json_view(*doc) is Null),
;

/// `Value::as_str`: the text, where the document is a string, and nothing
/// for any other document.
pub assume_specification<'a>[ serde_json::Value::as_str ](doc: &'a serde_json::Value) -> (r: Option<
    &'a str,
>)
    ensures
        match r {
            Some(s) => json_view(*doc).as_text() == Some(s@),
            None => json_view(*doc).as_text() is None,
        },
;

/// `Value`'s `Display`, by way of `to_string`: the compact JSON text of the
/// document. The rendering depends on what the document holds alone.
#[verifier::external_body]
pub(crate) fn render(doc: &serde_json::Value) -> (r: String)
    ensures
        r@ == json_text(json_view(*doc)),
{
    doc.to_string()
}

/// `Value::from` at `&str`: the document that is this string.
#[verifier::external_body]
pub(crate) fn string_doc(text: &str) -> (r: serde_json::Value)
    ensures
        json_view(r) == Json::Text(text@),
{
    serde_json::Value::from(text)
}

/// A text as a JSON string literal: quoted, with the escapes that
/// `serde_json` writes.
pub open spec fn json_quoted(text: Seq<char>) -> Seq<char> {
    json_text(Json::Text(text))
}

/// Writes a text as a JSON string literal.
pub fn quote(text: &str) -> (r: String)
    ensures
        r@ == json_quoted(text@),
{
    let doc = string_doc(text);
    render(&doc)
}

/// What a document holds under a key, told apart four ways.
#[derive(Debug, Clone, PartialEq, Eq)]
pub enum Slot<T> {
    /// The document has no such member.
    Missing,
    /// The member is `null`.
    Null,
    /// The member holds something of another kind.
    Mistyped,
    /// The member holds this.
    Holds(T),
}

/// The view of a slot that holds a text.
pub open spec fn slot_view(slot: Slot<String>) -> Slot<Seq<char>> {
    match slot {
        Slot::Missing => Slot::Missing,
        Slot::Null => Slot::Null,
        Slot::Mistyped => Slot::Mistyped,
        Slot::Holds(s) => Slot::Holds(s@),
    }
}

/// The unsigned integer under a key of a document.
pub open spec fn slot_u64(doc: Json, key: Seq<char>) -> Slot<u64> {
    match doc.member(key) {
        None => Slot::Missing,
        Some(m) => if m is Null {
            Slot::Null
        } else {
            match m.as_u64() {
                Some(n) => Slot::Holds(n),
                None => Slot::Mistyped,
            }
        },
    }
}

/// The string under a key of a document.
pub open spec fn slot_text(doc: Json, key: Seq<char>) -> Slot<Seq<char>> {
    match doc.member(key) {
        None => Slot::Missing,
        Some(m) => if m is Null {
            Slot::Null
        } else {
            match m.as_text() {
                Some(s) => Slot::Holds(s),
                None => Slot::Mistyped,
            }
        },
    }
}

/// The rendering of the member under a key of a document.
pub open spec fn member_text(doc: Json, key: Seq<char>) -> Option<Seq<char>> {
    match doc.member(key) {
        None => None,
        Some(m) => Some(json_text(m)),
    }
}

/// Reads the unsigned integer under a key.
pub fn read_u64(doc: &serde_json::Value, key: &str) -> (r: Slot<u64>)
    ensures
        r == slot_u64(json_view(*doc), key@),
{
    match member(doc, key) {
        None => Slot::Missing,
        Some(m) => {
            if m.is_null() {
                Slot::Null
            } else {
                match m.as_u64() {
                    Some(n) => Slot::Holds(n),
                    None => Slot::Mistyped,
                }
            }
        },
    }
}

/// Reads the string under a key.
pub fn read_text(doc: &serde_json::Value, key: &str) -> (r: Slot<String>)
    ensures
        slot_view(r) == slot_text(json_view(*doc), key@),
{
    match member(doc, key) {
        None => Slot::Missing,
        Some(m) => {
            if m.is_null() {
                Slot::Null
            } else {
                match m.as_str() {
                    Some(s) => Slot::Holds(String::from_str(s)),
                    None => Slot::Mistyped,
                }
            }
        },
    }
}

/// Renders the member under a key.
pub fn read_member(doc: &serde_json::Value, key: &str) -> (r: Option<String>)
    ensures
        match r {
            Some(s) => member_text(json_view(*doc), key@) == Some(s@),
            None => member_text(json_view(*doc), key@) is None,
        },
{
    match member(doc, key) {
        None => None,
        Some(m) => Some(render(m)),
    }
}

} // verus!
