//! JSON documents as the adapter sees them, and the serde_json calls it makes.
use vstd::prelude::*;

verus! {

/// A JSON value as a mathematical tree.
pub enum JsonNode {
    Null,
    Bool(bool),
    /// A number written without fraction or exponent.
    Integer(int),
    /// A number held as a floating-point value.
    Fraction,
    Text(Seq<char>),
    Array(Seq<JsonNode>),
    Object(Map<Seq<char>, JsonNode>),
}

#[verifier::external_type_specification]
#[verifier::external_body]
pub struct ExValue(serde_json::Value);

#[verifier::external_type_specification]
#[verifier::external_body]
pub struct ExError(serde_json::Error);

/// The tree that a serde_json value holds: its variants with their contents,
/// an object's members keyed by name.
pub uninterp spec fn json_model(v: serde_json::Value) -> JsonNode;

/// What serde_json makes of a text: the tree it parses to, or `None` where the
/// text is not a JSON document.
pub uninterp spec fn json_parse(text: Seq<char>) -> Option<JsonNode>;

/// The string stored under `key`, when `node` is an object holding a string there.
pub open spec fn text_member(node: JsonNode, key: Seq<char>) -> Option<Seq<char>> {
    match node {
        JsonNode::Object(m) => if m.contains_key(key) {
            match m[key] {
                JsonNode::Text(s) => Some(s),
                _ => None,
            }
        } else {
            None
        },
        _ => None,
    }
}

/// The value stored under `key`, when `node` is an object holding one.
pub open spec fn member_of(node: JsonNode, key: Seq<char>) -> Option<JsonNode> {
    match node {
        JsonNode::Object(m) => if m.contains_key(key) {
            Some(m[key])
        } else {
            None
        },
        _ => None,
    }
}

/// Relies on serde_json::from_str: parses a text into a value, or reports why it is no JSON.
#[verifier::external_body]
pub(crate) fn parse_json(text: &str) -> (r: Result<serde_json::Value, serde_json::Error>)
    ensures
        match r {
            Ok(v) => json_parse(text@) == Some(json_model(v)),
            Err(_) => json_parse(text@) is None,
        },
{
    serde_json::from_str(text)
}

/// Relies on serde_json::Value::get with a `&str` key: the member of an object, or `None`.
#[verifier::external_body]
pub(crate) fn member<'a>(v: &'a serde_json::Value, key: &str) -> (r: Option<&'a serde_json::Value>)
    ensures
        match r {
            Some(m) => member_of(json_model(*v), key@) == Some(json_model(*m)),
            None => member_of(json_model(*v), key@) is None,
        },
{
    v.get(key)
}

/// serde_json::Value::as_str: the text of a string value.
pub assume_specification[ serde_json::Value::as_str ](v: &serde_json::Value) -> (r: Option<&str>)
    ensures
        match r {
            Some(s) => json_model(*v) == JsonNode::Text(s@),
            None => !(json_model(*v) is Text),
        },
;

/// serde_json::Value::as_bool: the truth value of a boolean.
pub assume_specification[ serde_json::Value::as_bool ](v: &serde_json::Value) -> (r: Option<bool>)
    ensures
        match r {
            Some(b) => json_model(*v) == JsonNode::Bool(b),
            None => !(json_model(*v) is Bool),
        },
;

/// serde_json::Value::as_i64: an integer that fits in `i64`.
pub assume_specification[ serde_json::Value::as_i64 ](v: &serde_json::Value) -> (r: Option<i64>)
    ensures
        match r {
            Some(i) => json_model(*v) == JsonNode::Integer(i as int),
            None => !(json_model(*v) matches JsonNode::Integer(i) && i64::MIN <= i <= i64::MAX),
        },
;

/// serde_json::Value::as_array: the items of an array.
pub assume_specification[ serde_json::Value::as_array ](v: &serde_json::Value) -> (r: Option<&Vec<serde_json::Value>>)
    ensures
        match r {
            Some(a) => json_model(*v) == JsonNode::Array(a@.map_values(|x: serde_json::Value| json_model(x))),
            None => !(json_model(*v) is Array),
        },
;

/// serde_json::Value::is_object: whether a value is an object.
pub assume_specification[ serde_json::Value::is_object ](v: &serde_json::Value) -> (r: bool)
    ensures
        r == (json_model(*v) is Object),
;

/// The string member `key` of a value, copied out.
pub fn text_field(v: &serde_json::Value, key: &str) -> (r: Option<String>)
    ensures
        match r {
            Some(s) => text_member(json_model(*v), key@) == Some(s@),
            None => text_member(json_model(*v), key@) is None,
        },
{
    match member(v, key) {
        Some(m) => match m.as_str() {
            Some(s) => Some(s.to_string()),
            None => None,
        },
        None => None,
    }
}

} // verus!
