//! JSON documents as plain values, and the reading of a text into one by
//! `serde_json`.

use vstd::prelude::*;

verus! {

/// A JSON value.
#[derive(Debug)]
pub enum Json {
    Null,
    Bool(bool),
    /// A number. It holds the number's value where that is an integer from 0
    /// to `u64::MAX`, and nothing for any other number.
    Number(Option<u64>),
    Text(String),
    Array(Vec<Json>),
    /// An object: its members, each a key and a value.
    Object(Vec<(String, Json)>),
}

/// `serde_json::Value`, as the parser returns it. It is only carried to
/// [`to_json`]; nothing else reads it.
#[verifier::external_type_specification]
#[verifier::external_body]
pub struct ExValue(serde_json::Value);

/// `serde_json::Error`, what the parser says of a text that is no JSON. It is
/// only told apart from a success.
#[verifier::external_type_specification]
#[verifier::external_body]
pub struct ExError(serde_json::Error);

/// What a `serde_json::Value` holds, as a [`Json`] of the same shape: an
/// array's items in their order, an object's members in the order in which
/// its map hands them out.
pub uninterp spec fn json_tree(value: serde_json::Value) -> Json;

/// What `serde_json::from_str` reads from a text as a `Value`, as a
/// [`Json`]; nothing where it fails.
pub uninterp spec fn json_document(text: Seq<char>) -> Option<Json>;

/// `serde_json::from_str::<Value>` parses a text that holds one JSON value
/// and fails on any other text. The contract gives what it
/// returns a name, [`json_document`], and says nothing of which texts parse.
#[verifier::external_body]
fn parse_value(text: &str) -> (parsed: Result<serde_json::Value, serde_json::Error>)
    ensures
        parsed is Ok <==> json_document(text@) is Some,
        parsed matches Ok(value) ==> json_document(text@) == Some(json_tree(value)),
{
    serde_json::from_str::<serde_json::Value>(text)
}

/// Rewrites a `serde_json::Value` as a [`Json`], variant by variant: a
/// number goes through `Number::as_u64`, an object's members come from
/// `Map::iter`, and items and members are rewritten in turn. The contract
/// gives the outcome a name, [`json_tree`].
#[verifier::external_body]
fn to_json(value: &serde_json::Value) -> (tree: Json)
    ensures
        tree == json_tree(*value),
{
    match value {
        serde_json::Value::Null => Json::Null,
        serde_json::Value::Bool(b) => Json::Bool(*b),
        serde_json::Value::Number(n) => Json::Number(n.as_u64()),
        serde_json::Value::String(s) => Json::Text(s.clone()),
        serde_json::Value::Array(items) => Json::Array(items.iter().map(to_json).collect()),
        serde_json::Value::Object(members) => Json::Object(
            members.iter().map(|(key, member)| (key.clone(), to_json(member))).collect(),
        ),
    }
}

/// Reads a text as a JSON document, or as nothing where it is not
/// well-formed JSON.
pub fn parse_json(text: &str) -> (parsed: Option<Json>)
    ensures
        parsed == json_document(text@),
{
    match parse_value(text) {
        Ok(value) => Some(to_json(&value)),
        Err(_) => None,
    }
}

} // verus!
