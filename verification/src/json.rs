//! JSON documents as trees, and the reading and writing of JSON text, which
//! `serde_json` does. Verus does not read that crate; what this library relies
//! on is stated here and believed.

use crate::keyed::unique_keys;
use vstd::prelude::*;

verus! {

/// A JSON value.
#[derive(Debug, PartialEq, Eq)]
pub enum JsonNode {
    /// `null`.
    Null,
    /// `true` or `false`.
    Bool(bool),
    /// A number. This library carries numbers along and never looks into one.
    Number(serde_json::Number),
    /// A string.
    Text(String),
    /// An array: its items in order.
    Array(Vec<JsonNode>),
    /// An object: its members in order, each a name and a value.
    Object(Vec<(String, JsonNode)>),
}

/// A JSON value as mathematics.
pub ghost enum JsonValue {
    Null,
    Bool(bool),
    Number(serde_json::Number),
    Text(Seq<char>),
    Array(Seq<JsonValue>),
    Object(Seq<(Seq<char>, JsonValue)>),
}

/// The value that a tree holds.
pub open spec fn tree_value(node: JsonNode) -> JsonValue
    decreases node,
{
    match node {
        JsonNode::Null => JsonValue::Null,
        JsonNode::Bool(b) => JsonValue::Bool(b),
        JsonNode::Number(number) => JsonValue::Number(number),
        JsonNode::Text(text) => JsonValue::Text(text@),
        JsonNode::Array(items) => JsonValue::Array(
            Seq::new(
                items@.len(),
                |i: int|
                    if 0 <= i < items@.len() {
                        tree_value(items@[i])
                    } else {
                        JsonValue::Null
                    },
            ),
        ),
        JsonNode::Object(members) => JsonValue::Object(
            Seq::new(
                members@.len(),
                |i: int|
                    if 0 <= i < members@.len() {
                        (members@[i].0@, tree_value(members@[i].1))
                    } else {
                        (Seq::empty(), JsonValue::Null)
                    },
            ),
        ),
    }
}

impl View for JsonNode {
    type V = JsonValue;

    open spec fn view(&self) -> JsonValue {
        tree_value(*self)
    }
}

/// No object in `value`, at whatever depth, has two members of one name.
pub open spec fn distinct_names(value: JsonValue) -> bool
    decreases value,
{
    match value {
        JsonValue::Array(items) => forall|i: int|
            0 <= i < items.len() ==> distinct_names(#[trigger] items[i]),
        JsonValue::Object(members) => unique_keys(members) && forall|i: int|
            0 <= i < members.len() ==> distinct_names((#[trigger] members[i]).1),
        _ => true,
    }
}

/// What the view of a tree is, one level down: the same kind of value, with
/// the views of its parts.
pub proof fn lemma_view_unfolds(node: JsonNode)
    ensures
        node is Null <==> node@ is Null,
        node is Bool <==> node@ is Bool,
        node is Number <==> node@ is Number,
        node is Text <==> node@ is Text,
        node is Array <==> node@ is Array,
        node is Object <==> node@ is Object,
        node matches JsonNode::Text(text) ==> node@ == JsonValue::Text(text@),
        node matches JsonNode::Object(members) ==> node@->Object_0.len() == members@.len()
            && forall|i: int|
            0 <= i < members@.len() ==> #[trigger] node@->Object_0[i] == (
                members@[i].0@,
                members@[i].1@,
            ),
{
    if let JsonNode::Object(members) = node {
        let values = Seq::new(
            members@.len(),
            |i: int|
                if 0 <= i < members@.len() {
                    (members@[i].0@, tree_value(members@[i].1))
                } else {
                    (Seq::empty(), JsonValue::Null)
                },
        );
        assert(node@->Object_0 =~= values);
        assert forall|i: int| 0 <= i < members@.len() implies #[trigger] node@->Object_0[i] == (
            members@[i].0@,
            members@[i].1@,
        ) by {
            assert(values[i] == (members@[i].0@, members@[i].1@));
        }
    }
}

/// `serde_json::Error`: why a text was not read or not written. Nothing is
/// said of what it holds.
#[verifier::external_type_specification]
#[verifier::external_body]
pub struct ExJsonError(serde_json::Error);

/// `serde_json::Number`: a JSON number. Nothing is said of what it holds.
#[verifier::external_type_specification]
#[verifier::external_body]
pub struct ExJsonNumber(serde_json::Number);

/// `serde_json::Value`: a JSON document as `serde_json` holds it. What it
/// holds is `document_tree`.
#[verifier::external_type_specification]
#[verifier::external_body]
pub struct ExJsonDocument(serde_json::Value);

/// The value that `serde_json::from_str` reads from JSON text; `None` for
/// text that it takes for no JSON.
pub uninterp spec fn parsed_json(text: Seq<char>) -> Option<JsonValue>;

/// The value that a `serde_json::Value` holds: the same kind of value with
/// the same parts, the members of an object in the order in which the
/// document keeps them.
pub uninterp spec fn document_tree(document: serde_json::Value) -> JsonValue;

/// The JSON text that `serde_json::to_string` writes for a document that
/// holds `value`; `None` where it fails to write one.
pub uninterp spec fn rendered_json(value: JsonValue) -> Option<Seq<char>>;

/// `serde_json::from_str`, asked for a `serde_json::Value`: the document that
/// the text holds, or the error for text that holds none. The same text gives
/// a document that holds the same value each time.
#[verifier::external_body]
fn read_document(text: &str) -> (document: Result<serde_json::Value, serde_json::Error>)
    ensures
        match document {
            Ok(d) => parsed_json(text@) == Some(document_tree(d)),
            Err(_) => parsed_json(text@) is None,
        },
{
    serde_json::from_str::<serde_json::Value>(text)
}

/// Takes a `serde_json::Value` apart, variant by variant, into the tree that
/// it holds: each variant becomes the variant of the same kind, and the parts
/// of an array or an object are taken apart in turn.
#[verifier::external_body]
fn tree_of_document(document: serde_json::Value) -> (node: JsonNode)
    ensures
        node@ == document_tree(document),
{
    match document {
        serde_json::Value::Null => JsonNode::Null,
        serde_json::Value::Bool(b) => JsonNode::Bool(b),
        serde_json::Value::Number(n) => JsonNode::Number(n),
        serde_json::Value::String(s) => JsonNode::Text(s),
        serde_json::Value::Array(a) => JsonNode::Array(a.into_iter().map(tree_of_document).collect()),
        serde_json::Value::Object(m) => JsonNode::Object(
            m.into_iter().map(|(name, value)| (name, tree_of_document(value))).collect(),
        ),
    }
}

/// Puts a `serde_json::Value` together, variant by variant, from the tree
/// that it is to hold. In the tree no object has two members of one name: an
/// object of `serde_json` has none, and would keep only the last of them.
/// With the crate's feature `preserve_order`, which this library asks for, an
/// object keeps its members in the order in which they were put in.
#[verifier::external_body]
fn document_of_tree(node: &JsonNode) -> (document: serde_json::Value)
    requires
        distinct_names(node@),
    ensures
        document_tree(document) == node@,
{
    match node {
        JsonNode::Null => serde_json::Value::Null,
        JsonNode::Bool(b) => serde_json::Value::Bool(*b),
        JsonNode::Number(n) => serde_json::Value::Number(n.clone()),
        JsonNode::Text(s) => serde_json::Value::String(s.clone()),
        JsonNode::Array(a) => serde_json::Value::Array(a.iter().map(document_of_tree).collect()),
        JsonNode::Object(m) => serde_json::Value::Object(
            m.iter().map(|(name, value)| (name.clone(), document_of_tree(value))).collect(),
        ),
    }
}

/// `serde_json::to_string`, given a `serde_json::Value`: the JSON text of the
/// document, or the error where none is written. Documents that hold the same
/// value give the same text.
#[verifier::external_body]
fn write_document(document: &serde_json::Value) -> (text: Result<
    String,
    serde_json::Error,
>)
    ensures
        match text {
            Ok(t) => rendered_json(document_tree(*document)) == Some(t@),
            Err(_) => rendered_json(document_tree(*document)) is None,
        },
{
    serde_json::to_string(document)
}

impl JsonNode {
    /// Writes the value as JSON text. `None` where no text is written.
    pub(crate) fn render(&self) -> (text: Option<String>)
        requires
            distinct_names(self@),
        ensures
            match text {
                Some(t) => rendered_json(self@) == Some(t@),
                None => rendered_json(self@) is None,
            },
    {
        let document = document_of_tree(self);
        match write_document(&document) {
            Ok(text) => Some(text),
            Err(_) => None,
        }
    }

    /// Reads JSON text. `None` for text that is no JSON.
    pub fn parse(text: &str) -> (node: Option<JsonNode>)
        ensures
            match node {
                Some(n) => parsed_json(text@) == Some(n@),
                None => parsed_json(text@) is None,
            },
    {
        match read_document(text) {
            Ok(document) => Some(tree_of_document(document)),
            Err(_) => None,
        }
    }
}

} // verus!
