//! What the library reads of a JSON configuration text, through `serde_json`
//! (as `zed_extension_api` re-exports it). Each reading parses the text with
//! `serde_json::from_str` into a `serde_json::Value` and asks that value one
//! question, as the configuration code asks it. What the parser answers is a
//! function of the text and the key alone; it is named here, not restated.
//! The library also writes one JSON object through `serde_json`; its text,
//! a function of the members alone, is named the same way.

use vstd::prelude::*;

use zed_extension_api::serde_json;

verus! {

/// A JSON value of the kinds the library writes: a string, `null`, or an
/// unsigned number.
pub enum JsonScalar {
    Str(String),
    Null,
    Unsigned(u64),
}

/// A JSON value, its text taken by its view.
pub enum JsonScalarView {
    Str(Seq<char>),
    Null,
    Unsigned(u64),
}

impl View for JsonScalar {
    type V = JsonScalarView;

    open spec fn view(&self) -> JsonScalarView {
        match self {
            JsonScalar::Str(s) => JsonScalarView::Str(s@),
            JsonScalar::Null => JsonScalarView::Null,
            JsonScalar::Unsigned(n) => JsonScalarView::Unsigned(*n),
        }
    }
}

/// The members of a JSON object, their keys and values taken by their views.
pub open spec fn json_entries(e: Seq<(String, JsonScalar)>) -> Seq<(Seq<char>, JsonScalarView)> {
    e.map_values(|p: (String, JsonScalar)| (p.0@, p.1@))
}

/// The compact JSON text (`Value::to_string`) of the object that
/// `serde_json::Map::insert` builds from `entries`, in order.
pub uninterp spec fn json_object_text(entries: Seq<(Seq<char>, JsonScalarView)>) -> Seq<char>;

/// `None` when `serde_json::from_str::<Value>(text)` succeeds; else the text
/// of its error (`Display`).
pub uninterp spec fn json_syntax_error(text: Seq<char>) -> Option<Seq<char>>;

/// For a text that parses: `value.get(key).and_then(Value::as_str)`, the
/// string member `key` of a JSON object. `None` for a text that does not
/// parse.
pub uninterp spec fn json_str_member(text: Seq<char>, key: Seq<char>) -> Option<Seq<char>>;

/// For a text that parses: `value.get(key).and_then(Value::as_u64)`, the
/// member `key` of a JSON object when it is a number that fits `u64`. `None`
/// for a text that does not parse.
pub uninterp spec fn json_u64_member(text: Seq<char>, key: Seq<char>) -> Option<u64>;

/// For a text that parses: the member `key` of a JSON object when it is an
/// array, item by item in order, each string item as its text and any other
/// item as `None`. `None` where the member is missing or is no array, and
/// for a text that does not parse.
pub uninterp spec fn json_array_member(text: Seq<char>, key: Seq<char>) -> Option<
    Seq<Option<Seq<char>>>,
>;

/// For a text that parses: `value.get(key).is_some()`, whether a JSON object
/// has the member `key`, of any type, `null` included. `false` for a text
/// that does not parse.
pub uninterp spec fn json_has_member(text: Seq<char>, key: Seq<char>) -> bool;

/// Calls `serde_json::from_str::<serde_json::Value>` and gives the error's
/// `Display` text, if any; the contract claims that this is the named
/// function of the text, nothing more.
#[verifier::external_body]
pub(crate) fn json_syntax_error_of(text: &str) -> (r: Option<String>)
    ensures
        r.deep_view() == json_syntax_error(text@),
{
    match serde_json::from_str::<serde_json::Value>(text) {
        Ok(_) => None,
        Err(e) => Some(e.to_string()),
    }
}

/// Calls `serde_json::from_str::<serde_json::Value>`, then `Value::get` and
/// `Value::as_str`; the contract claims only that the result is the named
/// function of the text and the key.
#[verifier::external_body]
pub(crate) fn json_str_member_of(text: &str, key: &str) -> (r: Option<String>)
    ensures
        r.deep_view() == json_str_member(text@, key@),
{
    match serde_json::from_str::<serde_json::Value>(text) {
        Ok(v) => v.get(key).and_then(serde_json::Value::as_str).map(String::from),
        Err(_) => None,
    }
}

/// Calls `serde_json::from_str::<serde_json::Value>`, then `Value::get` and
/// `Value::as_u64`; the contract claims only that the result is the named
/// function of the text and the key.
#[verifier::external_body]
pub(crate) fn json_u64_member_of(text: &str, key: &str) -> (r: Option<u64>)
    ensures
        r == json_u64_member(text@, key@),
{
    match serde_json::from_str::<serde_json::Value>(text) {
        Ok(v) => v.get(key).and_then(serde_json::Value::as_u64),
        Err(_) => None,
    }
}

/// Calls `serde_json::from_str::<serde_json::Value>`, then `Value::get`, and
/// tells the member's variants apart: a `Value::Array`, whose items it tells
/// apart one by one (`Value::String` or another variant); the contract
/// claims only that the result is the named function of the text and the
/// key.
#[verifier::external_body]
pub(crate) fn json_array_member_of(text: &str, key: &str) -> (r: Option<Vec<Option<String>>>)
    ensures
        r.deep_view() == json_array_member(text@, key@),
{
    match serde_json::from_str::<serde_json::Value>(text) {
        Ok(v) => match v.get(key) {
            Some(serde_json::Value::Array(items)) => Some(items.iter().map(|item| match item {
                serde_json::Value::String(s) => Some(s.clone()),
                _ => None,
            }).collect()),
            _ => None,
        },
        Err(_) => None,
    }
}

/// Inserts each entry into a `serde_json::Map` (each value converted to the
/// matching `serde_json::Value` variant) and writes the object with
/// `Value::to_string`; the contract claims only that the text is the named
/// function of the entries.
#[verifier::external_body]
pub(crate) fn json_object_text_of(entries: Vec<(String, JsonScalar)>) -> (r: String)
    ensures
        r@ == json_object_text(json_entries(entries@)),
{
    let mut object = serde_json::Map::new();
    for (key, value) in entries {
        let value = match value {
            JsonScalar::Str(s) => serde_json::Value::String(s),
            JsonScalar::Null => serde_json::Value::Null,
            JsonScalar::Unsigned(n) => serde_json::Value::from(n),
        };
        object.insert(key, value);
    }
    serde_json::Value::Object(object).to_string()
}

/// Calls `serde_json::from_str::<serde_json::Value>`, then `Value::get`; the
/// contract claims only that the result is the named function of the text
/// and the key.
#[verifier::external_body]
pub(crate) fn json_has_member_of(text: &str, key: &str) -> (r: bool)
    ensures
        r == json_has_member(text@, key@),
{
    match serde_json::from_str::<serde_json::Value>(text) {
        Ok(v) => v.get(key).is_some(),
        Err(_) => false,
    }
}

} // verus!
