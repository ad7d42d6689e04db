//! The shape of a JSON document, as the parts of the service that inspect
//! metadata see it.
use vstd::prelude::*;

verus! {

/// The kind of value at the top of a JSON document; for an object, the number
/// of its members.
#[derive(Debug, Clone, Copy, PartialEq, Eq, Structural)]
pub enum JsonShape {
    Null,
    Bool,
    Number,
    String,
    Array,
    Object { members: usize },
}

/// The shape of the JSON document `text` as `serde_json` reads it, or `None`
/// when `serde_json` does not accept `text` as a JSON document.
pub uninterp spec fn json_shape_of(text: Seq<char>) -> Option<JsonShape>;

/// Reads `text` with `serde_json::from_str` into a `serde_json::Value` and
/// reports the variant of the value, and for an object its number of members.
/// Claimed: the result is `json_shape_of(text)`, a function of the text alone.
#[verifier::external_body]
pub(crate) fn json_shape(text: &str) -> (shape: Option<JsonShape>)
    ensures
        shape == json_shape_of(text@),
{
    match serde_json::from_str::<serde_json::Value>(text) {
        Ok(serde_json::Value::Null) => Some(JsonShape::Null),
        Ok(serde_json::Value::Bool(_)) => Some(JsonShape::Bool),
        Ok(serde_json::Value::Number(_)) => Some(JsonShape::Number),
        Ok(serde_json::Value::String(_)) => Some(JsonShape::String),
        Ok(serde_json::Value::Array(_)) => Some(JsonShape::Array),
        Ok(serde_json::Value::Object(members)) => Some(JsonShape::Object { members: members.len() }),
        Err(_) => None,
    }
}

} // verus!
