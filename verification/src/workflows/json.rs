//! The boundary to the JSON parser: a mathematical model of a JSON document
//! and the contracts under which the parser's values are read.
//!
//! The parser is `serde_json` with its default features: numbers are held
//! as `u64`, `i64` or a float, and an object holds one value for a key.
//! Nothing here is proved; the rest of the library is proved from it.

use vstd::prelude::*;

verus! {

/// A JSON document as a mathematical value.
///
/// A number is an `Int` where the parser holds it as an integer, `u64` or
/// `i64`; every other number is a `Fraction`, of which nothing more is
/// recorded. An object is a map: a key occurs once.
pub enum Json {
    Null,
    Bool(bool),
    Int(int),
    Fraction,
    Text(Seq<char>),
    Array(Seq<Json>),
    Object(Map<Seq<char>, Json>),
}

/// `serde_json::Value`: a parsed document. The verifier sees nothing inside
/// it; what it holds is read through the functions below.
#[verifier::external_type_specification]
#[verifier::external_body]
pub struct ExValue(serde_json::Value);

/// `serde_json::Error`: why a text could not be parsed. Nothing is read from
/// it.
#[verifier::external_type_specification]
#[verifier::external_body]
pub struct ExError(serde_json::Error);

/// The document that a parsed value holds.
pub uninterp spec fn json_tree(value: serde_json::Value) -> Json;

/// The document that a text denotes, or `None` where the text is not JSON.
pub uninterp spec fn json_of_text(text: Seq<char>) -> Option<Json>;

/// `serde_json::from_str` at `serde_json::Value`. Trusted: the value holds the
/// document that the text denotes, and the call fails exactly on a text that
/// denotes none.
#[verifier::external_body]
pub(crate) fn parse(text: &str) -> (r: Result<serde_json::Value, serde_json::Error>)
    ensures
        match r {
            Ok(value) => json_of_text(text@) == Some(json_tree(value)),
            Err(_) => json_of_text(text@) is None,
        },
{
    serde_json::from_str::<serde_json::Value>(text)
}

/// `serde_json::Value::get` with a string index. Trusted: it finds the member
/// of an object under that key, and gives `None` for a missing key and for
/// anything but an object.
#[verifier::external_body]
pub(crate) fn member<'a>(value: &'a serde_json::Value, key: &str) -> (r: Option<
    &'a serde_json::Value,
>)
    ensures
        match r {
            Some(found) => json_tree(*value) matches Json::Object(members) && members.contains_key(
                key@,
            ) && members[key@] == json_tree(*found),
            None => !(json_tree(*value) matches Json::Object(members) && members.contains_key(
                key@,
            )),
        },
{
    value.get(key)
}

/// `serde_json::Value::as_str`. Trusted: it gives the text of a string and `None` for anything else.
pub assume_specification[ serde_json::Value::as_str ](value: &serde_json::Value) -> (r: Option<
    &str,
>)
    ensures
        match r {
            Some(text) => json_tree(*value) == Json::Text(text@),
            None => !(json_tree(*value) is Text),
        },
;

/// `serde_json::Value::as_i64`. Trusted: it gives an integer that fits `i64`,
/// and `None` for a larger integer, for a fraction and for anything but a
/// number.
pub assume_specification[ serde_json::Value::as_i64 ](value: &serde_json::Value) -> (r: Option<i64>)
    ensures
        match r {
            Some(n) => json_tree(*value) == Json::Int(n as int),
            None => !(json_tree(*value) matches Json::Int(n) && i64::MIN <= n <= i64::MAX),
        },
;

/// `serde_json::Value::as_array`. Trusted: it gives the elements of an array,
/// in their order, and `None` for anything else.
pub assume_specification[ serde_json::Value::as_array ](value: &serde_json::Value) -> (r: Option<
    &Vec<serde_json::Value>,
>)
    ensures
        match r {
            Some(items) => json_tree(*value) == Json::Array(
                items@.map_values(|item: serde_json::Value| json_tree(item)),
            ),
            None => !(json_tree(*value) is Array),
        },
;

} // verus!
