//! JSON documents as `serde_json` holds them, and the few questions this
//! library asks of one.
//!
//! Nothing in this module is proved. Each item states what the named
//! `serde_json` function does, and everything else in the crate is verified
//! against these statements.

use crate::error::SyntaxError;
use vstd::prelude::*;

verus! {

/// `serde_json::Value`, carried through without a look inside: what a value
/// holds is known only through `json_of` and the functions below.
#[verifier::external_type_specification]
#[verifier::external_body]
pub struct ExValue(serde_json::Value);

/// A JSON document as a mathematical value, one variant for each variant of
/// `serde_json::Value`.
pub enum Json {
    Null,
    Bool(bool),
    /// A number. `Some(n)` where `serde_json` holds it as the unsigned integer
    /// `n`; `None` for every other number (negative, fractional, or too large).
    Number(Option<u64>),
    Text(Seq<char>),
    /// The elements, in order.
    Array(Seq<Json>),
    /// The members, by name.
    Object(Map<Seq<char>, Json>),
}

/// The document that a `serde_json::Value` holds.
pub uninterp spec fn json_of(value: serde_json::Value) -> Json;

/// The document that `serde_json::from_slice` reads from `bytes`, or `None`
/// where it reports an error.
pub uninterp spec fn json_text(bytes: Seq<u8>) -> Option<Json>;

/// Calls `serde_json::from_slice` at the type `serde_json::Value`. The parser
/// is a function of the bytes alone: it succeeds exactly where `json_text`
/// has a document, and the value returned holds that document. Of the error
/// nothing is claimed; its position and message are copied out as they are.
#[verifier::external_body]
pub(crate) fn parse(bytes: &[u8]) -> (r: Result<serde_json::Value, SyntaxError>)
    ensures
        r is Ok <==> json_text(bytes@) is Some,
        r matches Ok(value) ==> Some(json_of(value)) == json_text(bytes@),
{
    match serde_json::from_slice::<serde_json::Value>(bytes) {
        Ok(value) => Ok(value),
        Err(e) => Err(SyntaxError { line: e.line(), column: e.column(), message: e.to_string() }),
    }
}

/// `Value::as_array`: the vector of an array's elements, `None` for any other
/// value.
pub assume_specification<'a>[ serde_json::Value::as_array ](value: &'a serde_json::Value) -> (r:
    Option<&'a Vec<serde_json::Value>>)
    ensures
        match json_of(*value) {
            Json::Array(items) => r matches Some(list) && list@.len() == items.len()
                && forall|i: int| 0 <= i < items.len() ==> json_of(#[trigger] list@[i]) == items[i],
            _ => r is None,
        },
;

/// `Value::as_u64`: the integer of a number held as an unsigned integer,
/// `None` for any other value.
pub assume_specification[ serde_json::Value::as_u64 ](value: &serde_json::Value) -> (r: Option<u64>)
    ensures
        r == match json_of(*value) {
            Json::Number(n) => n,
            _ => None,
        },
;

/// `Value::as_str`: the characters of a string, `None` for any other value.
pub assume_specification<'a>[ serde_json::Value::as_str ](value: &'a serde_json::Value) -> (r:
    Option<&'a str>)
    ensures
        match json_of(*value) {
            Json::Text(chars) => r matches Some(s) && s@ == chars,
            _ => r is None,
        },
;

/// Calls `Value::get` with a string key: the member of that name where the
/// value is an object that has one, `None` otherwise.
#[verifier::external_body]
pub(crate) fn member<'a>(value: &'a serde_json::Value, name: &str) -> (r: Option<
    &'a serde_json::Value,
>)
    ensures
        match json_of(*value) {
            Json::Object(members) if members.dom().contains(name@) => r matches Some(found)
                && json_of(*found) == members[name@],
            _ => r is None,
        },
{
    value.get(name)
}

} // verus!
