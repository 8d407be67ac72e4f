//! JSON values as the host sees them.
//!
//! A document is held as a `serde_json::Value` and read and written only by
//! `serde_json`. Contracts speak of a document through its mathematical model,
//! [`JsonNode`].

use vstd::prelude::*;

verus! {

/// The model of a JSON number.
pub enum JsonNumber {
    /// A number held as an integer.
    Integer(int),
    /// A number held as a binary64, given by its bit pattern. No contract of
    /// this library looks inside such a number.
    Binary64(u64),
}

/// The model of a JSON document: a tree of values.
pub enum JsonNode {
    Null,
    Bool(bool),
    Number(JsonNumber),
    Text(Seq<char>),
    Array(Seq<JsonNode>),
    /// An object maps each of its keys to one value.
    Object(Map<Seq<char>, JsonNode>),
}

/// `serde_json::Value`, taken as it is: nothing inside it is visible to the
/// proofs, which know a value only by [`value_node`].
#[verifier::external_type_specification]
#[verifier::external_body]
pub struct ExValue(serde_json::Value);

/// The tree that a `serde_json::Value` holds: `Null`, `Bool`, `Number`,
/// `String`, `Array` and `Object` in turn, an object's map taken as the map
/// from its keys to their values.
pub uninterp spec fn value_node(value: serde_json::Value) -> JsonNode;

/// What `serde_json::from_str` reads from a text: the document, or `None`
/// where it reports an error.
pub uninterp spec fn json_parse(text: Seq<char>) -> Option<JsonNode>;

/// `serde_json::from_str::<Value>`: reads one JSON document from the whole
/// of `text`. The result is a function of the text alone, named
/// [`json_parse`]; the error, where there is one, is dropped.
#[verifier::external_body]
fn parse_value(text: &str) -> (r: Option<serde_json::Value>)
    ensures
        match r {
            Some(value) => json_parse(text@) == Some(value_node(value)),
            None => json_parse(text@) is None,
        },
{
    serde_json::from_str::<serde_json::Value>(text).ok()
}

/// What `serde_json::to_string` writes for a document: its compact text, or
/// `None` where it reports an error.
pub uninterp spec fn json_text(node: JsonNode) -> Option<Seq<char>>;

/// The value that an object holds under `key`; `None` for a key that it does
/// not hold and for a node that is no object.
pub open spec fn node_member(node: JsonNode, key: Seq<char>) -> Option<JsonNode> {
    match node {
        JsonNode::Object(members) => if members.contains_key(key) {
            Some(members[key])
        } else {
            None
        },
        _ => None,
    }
}

/// The text of the string that an object holds under `key`; `None` where it
/// holds none there.
pub open spec fn node_member_text(node: JsonNode, key: Seq<char>) -> Option<Seq<char>> {
    match node_member(node, key) {
        Some(JsonNode::Text(text)) => Some(text),
        _ => None,
    }
}

/// An array with `item` added at its end; any other node unchanged.
pub open spec fn node_with_item(node: JsonNode, item: JsonNode) -> JsonNode {
    match node {
        JsonNode::Array(items) => JsonNode::Array(items.push(item)),
        _ => node,
    }
}

/// An object with `key` set to `value`, in place of what it held there; any
/// other node unchanged.
pub open spec fn node_with_member(node: JsonNode, key: Seq<char>, value: JsonNode) -> JsonNode {
    match node {
        JsonNode::Object(members) => JsonNode::Object(members.insert(key, value)),
        _ => node,
    }
}

/// `serde_json::to_string::<Value>`: the compact JSON text of `value`. The
/// result is a function of the document alone, named [`json_text`]; the
/// error, where there is one, is dropped.
#[verifier::external_body]
fn value_text(value: &serde_json::Value) -> (r: Option<String>)
    ensures
        match r {
            Some(text) => json_text(value_node(*value)) == Some(text@),
            None => json_text(value_node(*value)) is None,
        },
{
    serde_json::to_string(value).ok()
}

/// `Value::get` with a string index: a reference to the value that an object
/// holds under `key`, and `None` for a missing key or a value that is no
/// object.
#[verifier::external_body]
fn value_get<'a>(value: &'a serde_json::Value, key: &str) -> (r: Option<&'a serde_json::Value>)
    ensures
        match r {
            Some(found) => node_member(value_node(*value), key@) == Some(value_node(*found)),
            None => node_member(value_node(*value), key@) is None,
        },
{
    value.get(key)
}

/// `Value::as_str`: the text of a JSON string, and `None` for any other
/// value.
#[verifier::external_body]
fn value_as_str<'a>(value: &'a serde_json::Value) -> (r: Option<&'a str>)
    ensures
        match r {
            Some(text) => value_node(*value) == JsonNode::Text(text@),
            None => !(value_node(*value) is Text),
        },
{
    value.as_str()
}

/// `Value::is_object`: whether the value is a JSON object.
#[verifier::external_body]
fn value_is_object(value: &serde_json::Value) -> (r: bool)
    ensures
        r == (value_node(*value) is Object),
{
    value.is_object()
}

/// `Value::clone`: a copy that holds the same tree.
pub assume_specification[ <serde_json::Value as Clone>::clone ](value: &serde_json::Value) -> (r:
    serde_json::Value)
    ensures
        value_node(r) == value_node(*value),
;

/// `Value::from(&str)`: the JSON string with the given text.
#[verifier::external_body]
fn value_from_str(text: &str) -> (r: serde_json::Value)
    ensures
        value_node(r) == JsonNode::Text(text@),
{
    serde_json::Value::from(text)
}

/// `Value::from(u64)`: the JSON number that holds the integer `n`.
#[verifier::external_body]
fn value_from_u64(n: u64) -> (r: serde_json::Value)
    ensures
        value_node(r) == JsonNode::Number(JsonNumber::Integer(n as int)),
{
    serde_json::Value::from(n)
}

/// `Value::Array` of an empty vector: the array without items.
#[verifier::external_body]
fn value_empty_array() -> (r: serde_json::Value)
    ensures
        value_node(r) == JsonNode::Array(Seq::<JsonNode>::empty()),
{
    serde_json::Value::Array(Vec::new())
}

/// `Map::new` inside `Value::Object`: the object without members.
#[verifier::external_body]
fn value_empty_object() -> (r: serde_json::Value)
    ensures
        value_node(r) == JsonNode::Object(Map::<Seq<char>, JsonNode>::empty()),
{
    serde_json::Value::Object(serde_json::Map::new())
}

/// Pushes `item` onto the vector of a `Value::Array`; hands any other value
/// back as it came.
#[verifier::external_body]
fn value_push(array: serde_json::Value, item: serde_json::Value) -> (r: serde_json::Value)
    ensures
        value_node(r) == node_with_item(value_node(array), value_node(item)),
{
    match array {
        serde_json::Value::Array(mut items) => {
            items.push(item);
            serde_json::Value::Array(items)
        },
        other => other,
    }
}

/// `Map::insert` on the map of a `Value::Object`: sets `key` to `value`,
/// replacing what the object held there; hands any other value back as it
/// came.
#[verifier::external_body]
fn value_insert(object: serde_json::Value, key: &str, value: serde_json::Value) -> (r:
    serde_json::Value)
    ensures
        value_node(r) == node_with_member(value_node(object), key@, value_node(value)),
{
    match object {
        serde_json::Value::Object(mut members) => {
            members.insert(key.to_owned(), value);
            serde_json::Value::Object(members)
        },
        other => other,
    }
}

/// A JSON document.
#[derive(Debug, PartialEq)]
pub struct JsonValue {
    inner: serde_json::Value,
}

impl View for JsonValue {
    type V = JsonNode;

    closed spec fn view(&self) -> JsonNode {
        value_node(self.inner)
    }
}

impl Clone for JsonValue {
    fn clone(&self) -> (copy: JsonValue)
        ensures
            copy@ == self@,
    {
        JsonValue { inner: self.inner.clone() }
    }
}

impl JsonValue {
    /// Reads a document from `text`; `None` where `text` is not one JSON
    /// document.
    pub fn parse(text: &str) -> (r: Option<JsonValue>)
        ensures
            match r {
                Some(value) => json_parse(text@) == Some(value@),
                None => json_parse(text@) is None,
            },
    {
        match parse_value(text) {
            Some(value) => Some(JsonValue { inner: value }),
            None => None,
        }
    }

    /// The compact JSON text of the document; `None` where it cannot be
    /// written.
    pub fn to_text(&self) -> (r: Option<String>)
        ensures
            match r {
                Some(text) => json_text(self@) == Some(text@),
                None => json_text(self@) is None,
            },
    {
        value_text(&self.inner)
    }

    /// The JSON string that holds `text`.
    pub fn string(text: &str) -> (r: JsonValue)
        ensures
            r@ == JsonNode::Text(text@),
    {
        JsonValue { inner: value_from_str(text) }
    }

    /// The JSON number that holds the integer `n`.
    pub fn integer(n: u64) -> (r: JsonValue)
        ensures
            r@ == JsonNode::Number(JsonNumber::Integer(n as int)),
    {
        JsonValue { inner: value_from_u64(n) }
    }

    /// The array without items.
    pub fn array() -> (r: JsonValue)
        ensures
            r@ == JsonNode::Array(Seq::<JsonNode>::empty()),
    {
        JsonValue { inner: value_empty_array() }
    }

    /// The object without members.
    pub fn object() -> (r: JsonValue)
        ensures
            r@ == JsonNode::Object(Map::<Seq<char>, JsonNode>::empty()),
    {
        JsonValue { inner: value_empty_object() }
    }

    /// Adds `item` at the end of an array. A document that is no array
    /// comes back unchanged.
    pub fn with_item(self, item: JsonValue) -> (r: JsonValue)
        ensures
            r@ == node_with_item(self@, item@),
    {
        JsonValue { inner: value_push(self.inner, item.inner) }
    }

    /// Sets `key` to `value` in an object, in place of what it held there.
    /// A document that is no object comes back unchanged.
    pub fn with_member(self, key: &str, value: JsonValue) -> (r: JsonValue)
        ensures
            r@ == node_with_member(self@, key@, value@),
    {
        JsonValue { inner: value_insert(self.inner, key, value.inner) }
    }

    /// Whether the document is a JSON object.
    pub fn is_object(&self) -> (r: bool)
        ensures
            r == (self@ is Object),
    {
        value_is_object(&self.inner)
    }

    /// A copy of the value that an object holds under `key`.
    pub fn member(&self, key: &str) -> (r: Option<JsonValue>)
        ensures
            match r {
                Some(found) => node_member(self@, key@) == Some(found@),
                None => node_member(self@, key@) is None,
            },
    {
        match value_get(&self.inner, key) {
            Some(found) => Some(JsonValue { inner: found.clone() }),
            None => None,
        }
    }

    /// The text of the string that an object holds under `key`.
    pub fn member_text(&self, key: &str) -> (r: Option<String>)
        ensures
            match r {
                Some(text) => node_member_text(self@, key@) == Some(text@),
                None => node_member_text(self@, key@) is None,
            },
    {
        match value_get(&self.inner, key) {
            Some(found) => match value_as_str(found) {
                Some(text) => Some(text.to_owned()),
                None => None,
            },
            None => None,
        }
    }
}

} // verus!
