//! JSON documents as values of the library: what the parser gives for a
//! text, and the members of an object.

use vstd::prelude::*;
use crate::text::str_eq;

verus! {

/// Declares `serde_json::Value`, a parsed JSON document.
#[verifier::external_type_specification]
#[verifier::external_body]
pub struct ExJsonValue(serde_json::Value);

/// A JSON document as the library reads it. A number keeps its value where
/// it is a non-negative integer that fits a `u64`; an object keeps its
/// members in the order the parser hands them out.
#[derive(Debug)]
pub enum Json {
    Null,
    Bool(bool),
    /// A number: `Some` of its value where that is a `u64`, else `None`
    Number(Option<u64>),
    Text(String),
    Array(Vec<Json>),
    Object(Vec<(String, Json)>),
}

/// The document that `serde_json` parses from a text, as a `Json`; `None`
/// where the text is not JSON.
pub uninterp spec fn parsed_json(text: Seq<char>) -> Option<Json>;

/// Converts a `serde_json::Value` into a `Json`, one variant for another;
/// a number goes through `Number::as_u64`. It has no contract of its own:
/// `parse_json` names what comes out of the parse and this conversion.
#[verifier::external_body]
fn json_of(v: &serde_json::Value) -> (r: Json) {
    match v {
        serde_json::Value::Null => Json::Null,
        serde_json::Value::Bool(b) => Json::Bool(*b),
        serde_json::Value::Number(n) => Json::Number(n.as_u64()),
        serde_json::Value::String(t) => Json::Text(t.clone()),
        serde_json::Value::Array(items) => Json::Array(items.iter().map(json_of).collect()),
        serde_json::Value::Object(m) => Json::Object(m.iter().map(|(k, x)| (k.clone(), json_of(x))).collect()),
    }
}

/// Calls `serde_json::from_str::<serde_json::Value>` and converts the
/// document. The contract claims that the result is a function of the text
/// alone (`parsed_json`); the grammar is not stated.
#[verifier::external_body]
pub(crate) fn parse_json(text: &str) -> (r: Option<Json>)
    ensures
        r == parsed_json(text@),
{
    serde_json::from_str::<serde_json::Value>(text).ok().map(|v| json_of(&v))
}

/// The member of an object under a key, looked for from position `i` on:
/// the first one with that key.
pub open spec fn member_from(members: Seq<(String, Json)>, key: Seq<char>, i: int) -> Option<Json>
    decreases members.len() - i,
{
    if i < 0 || i >= members.len() {
        None
    } else if members[i].0@ == key {
        Some(members[i].1)
    } else {
        member_from(members, key, i + 1)
    }
}

/// The member of an object under a key (the first one with that key).
pub open spec fn json_member(members: Seq<(String, Json)>, key: Seq<char>) -> Option<Json> {
    member_from(members, key, 0)
}

/// The value of a document where it is a `u64` number.
pub open spec fn json_u64(j: Option<Json>) -> Option<u64> {
    match j {
        Some(Json::Number(Some(n))) => Some(n),
        _ => None,
    }
}

/// The member of a document under a key, where the document is an object.
pub open spec fn json_get(j: Option<Json>, key: Seq<char>) -> Option<Json> {
    match j {
        Some(Json::Object(members)) => json_member(members@, key),
        _ => None,
    }
}

/// The member of an object under a key: the first one with that key.
pub fn find_member<'a>(members: &'a Vec<(String, Json)>, key: &str) -> (r: Option<&'a Json>)
    ensures
        match json_member(members@, key@) {
            Some(j) => r is Some && *r->0 == j,
            None => r is None,
        },
{
    let mut i: usize = 0;
    while i < members.len()
        invariant
            i <= members.len(),
            json_member(members@, key@) == member_from(members@, key@, i as int),
        decreases members.len() - i,
    {
        if str_eq(members[i].0.as_str(), key) {
            return Some(&members[i].1);
        }
        i = i + 1;
    }
    None
}

} // verus!
