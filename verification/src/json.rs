//! JSON values as `serde_json` holds them, and what this library assumes of them.
//!
//! Property trees and configuration documents are kept in `serde_json`'s own
//! types. Verus cannot look inside those, so this module gives each of them a
//! mathematical model ([`Json`]) and states, function by function, how the
//! `serde_json` calls that the library makes act on that model. Nothing in this
//! module is proved: every item marked `external_body`, and every function
//! without a body, is an assumption about `serde_json`.

use vstd::prelude::*;

verus! {

/// `serde_json::Value`, opaque to the verifier.
#[verifier::external_type_specification]
#[verifier::external_body]
pub struct ExValue(serde_json::Value);

/// `serde_json::Number`, opaque to the verifier.
#[verifier::external_type_specification]
#[verifier::external_body]
pub struct ExNumber(serde_json::Number);

/// `serde_json::Map`, opaque to the verifier.
#[verifier::external_type_specification]
#[verifier::external_body]
#[verifier::reject_recursive_types(K)]
#[verifier::reject_recursive_types(V)]
pub struct ExMap<K, V>(serde_json::Map<K, V>);

/// `serde_json::Error`, opaque to the verifier.
#[verifier::external_type_specification]
#[verifier::external_body]
pub struct ExJsonError(serde_json::Error);

/// A JSON object as `serde_json` holds it.
pub type JsonObject = serde_json::Map<String, serde_json::Value>;

/// The mathematical model of a JSON value.
///
/// Strings are sequences of characters, arrays are sequences, objects are maps
/// from keys to values (an object has no order and no repeated key). A number
/// is carried as `serde_json` holds it: the library never computes with one.
#[verifier::ext_equal]
pub enum Json {
    Null,
    Bool(bool),
    Number(serde_json::Number),
    String(Seq<char>),
    Array(Seq<Json>),
    Object(Map<Seq<char>, Json>),
}

/// The JSON value that a `serde_json::Value` holds.
pub uninterp spec fn json_of(value: serde_json::Value) -> Json;

/// The entries that a `serde_json::Map` holds, each value by its model.
pub uninterp spec fn entries_of(object: JsonObject) -> Map<Seq<char>, Json>;

/// What `serde_json::from_str` makes of a text: the value it parses to, or
/// `None` where it rejects the text.
pub uninterp spec fn parsed(text: Seq<char>) -> Option<Json>;

/// What `serde_json::to_string` makes of a value: its compact text, or `None`
/// where it gives up.
pub uninterp spec fn rendered(json: Json) -> Option<Seq<char>>;

/// The models of a sequence of values, in the same order.
pub open spec fn json_seq(items: Seq<serde_json::Value>) -> Seq<Json> {
    items.map_values(|item: serde_json::Value| json_of(item))
}

/// The entries of a JSON value whose root is an object; no entries for any
/// other value.
pub open spec fn object_entries(json: Json) -> Map<Seq<char>, Json> {
    match json {
        Json::Object(entries) => entries,
        _ => Map::empty(),
    }
}

/// One level of a JSON value: which variant it is, with the variant's fields
/// still in `serde_json`'s types.
pub(crate) enum JsonNode {
    Null,
    Bool(bool),
    Number(serde_json::Number),
    String(String),
    Array(Vec<serde_json::Value>),
    Object(JsonObject),
}

impl JsonNode {
    /// The JSON value that the node stands for.
    pub(crate) open spec fn model(self) -> Json {
        match self {
            JsonNode::Null => Json::Null,
            JsonNode::Bool(flag) => Json::Bool(flag),
            JsonNode::Number(number) => Json::Number(number),
            JsonNode::String(text) => Json::String(text@),
            JsonNode::Array(items) => Json::Array(json_seq(items@)),
            JsonNode::Object(object) => Json::Object(entries_of(object)),
        }
    }
}

/// Builds a `serde_json::Value` from one of its six variants.
///
/// Assumed: the value holds exactly what the node holds, that is
/// `Value::Null`, `Value::Bool`, `Value::Number`, `Value::String`,
/// `Value::Array` and `Value::Object` keep their field as given.
#[verifier::external_body]
pub(crate) fn value_of_node(node: JsonNode) -> (value: serde_json::Value)
    ensures
        json_of(value) == node.model(),
{
    match node {
        JsonNode::Null => serde_json::Value::Null,
        JsonNode::Bool(flag) => serde_json::Value::Bool(flag),
        JsonNode::Number(number) => serde_json::Value::Number(number),
        JsonNode::String(text) => serde_json::Value::String(text),
        JsonNode::Array(items) => serde_json::Value::Array(items),
        JsonNode::Object(object) => serde_json::Value::Object(object),
    }
}

/// Takes a `serde_json::Value` apart into its variant and the variant's field.
///
/// Assumed: the node holds exactly what the value held.
#[verifier::external_body]
pub(crate) fn node_of_value(value: serde_json::Value) -> (node: JsonNode)
    ensures
        node.model() == json_of(value),
{
    match value {
        serde_json::Value::Null => JsonNode::Null,
        serde_json::Value::Bool(flag) => JsonNode::Bool(flag),
        serde_json::Value::Number(number) => JsonNode::Number(number),
        serde_json::Value::String(text) => JsonNode::String(text),
        serde_json::Value::Array(items) => JsonNode::Array(items),
        serde_json::Value::Object(object) => JsonNode::Object(object),
    }
}

/// `Clone::clone` of a `serde_json::Value`.
///
/// Assumed: the clone holds what the value it was made from holds.
pub assume_specification[ <serde_json::Value as Clone>::clone ](value: &serde_json::Value) -> (copy:
    serde_json::Value)
    ensures
        json_of(copy) == json_of(*value),
;

/// `serde_json::Map::new`.
///
/// Assumed: the new map has no entry.
#[verifier::external_body]
pub(crate) fn object_new() -> (object: JsonObject)
    ensures
        entries_of(object) =~= Map::empty(),
{
    serde_json::Map::new()
}

/// `serde_json::Map::insert`, without the value it hands back.
///
/// Assumed: afterwards the key maps to the given value, whether or not the map
/// held the key before, and every other entry is as it was.
#[verifier::external_body]
pub(crate) fn object_insert(object: &mut JsonObject, key: String, value: serde_json::Value)
    ensures
        entries_of(*final(object)) == entries_of(*old(object)).insert(key@, json_of(value)),
{
    object.insert(key, value);
}

/// `serde_json::Map::remove`.
///
/// Assumed: the call hands back the value that the key mapped to, or `None`
/// where the map did not hold the key; afterwards the map does not hold the
/// key, and every other entry is as it was.
#[verifier::external_body]
pub(crate) fn object_remove(object: &mut JsonObject, key: &str) -> (removed: Option<
    serde_json::Value,
>)
    ensures
        entries_of(*final(object)) == entries_of(*old(object)).remove(key@),
        match removed {
            Some(value) => entries_of(*old(object)).contains_key(key@) && json_of(value)
                == entries_of(*old(object))[key@],
            None => !entries_of(*old(object)).contains_key(key@),
        },
{
    object.remove(key)
}

/// The entries of a `serde_json::Map`, handed out by its `into_iter`, which
/// walks them in the map's own order.
///
/// Assumed: no key comes twice, each pair that comes is an entry of the map,
/// and each entry of the map comes. Nothing is assumed of the order.
#[verifier::external_body]
pub(crate) fn object_into_entries(object: JsonObject) -> (pairs: Vec<(String, serde_json::Value)>)
    ensures
        forall|i: int, j: int|
            0 <= i < j < pairs@.len() ==> (#[trigger] pairs@[i]).0@ != (#[trigger] pairs@[j]).0@,
        forall|i: int|
            0 <= i < pairs@.len() ==> entries_of(object).contains_key((#[trigger] pairs@[i]).0@)
                && entries_of(object)[pairs@[i].0@] == json_of(pairs@[i].1),
        forall|key: Seq<char>| #[trigger]
            entries_of(object).contains_key(key) ==> exists|i: int|
                0 <= i < pairs@.len() && (#[trigger] pairs@[i]).0@ == key,
{
    object.into_iter().collect()
}

/// `serde_json::from_str`, asked for a `serde_json::Value`.
///
/// Assumed: the outcome depends on the text alone, which is what gives
/// [`parsed`] its meaning: `Ok` with the value parsed, or `Err` where the text
/// is rejected.
#[verifier::external_body]
pub(crate) fn parse_text(text: &str) -> (outcome: Result<serde_json::Value, serde_json::Error>)
    ensures
        match outcome {
            Ok(value) => parsed(text@) == Some(json_of(value)),
            Err(_) => parsed(text@) is None,
        },
{
    serde_json::from_str::<serde_json::Value>(text)
}

/// `serde_json::to_string` on a `serde_json::Value`.
///
/// Assumed: the outcome depends on what the value holds alone, which is what
/// gives [`rendered`] its meaning. (The entries of an object are written in the
/// order of their keys: this crate does not turn on `preserve_order`.)
#[verifier::external_body]
pub(crate) fn render_text(value: &serde_json::Value) -> (outcome: Result<String, serde_json::Error>)
    ensures
        match outcome {
            Ok(text) => rendered(json_of(*value)) == Some(text@),
            Err(_) => rendered(json_of(*value)) is None,
        },
{
    serde_json::to_string(value)
}

} // verus!
