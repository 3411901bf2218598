//! One level of a JSON document at a time: a value's kind and its scalar, or
//! the JSON text of each of its children, which is read the same way in turn.
use vstd::prelude::*;
use crate::text::str_eq;
use serde_json::Value;

verus! {

/// What a JSON value is, with its children kept as JSON text.
pub enum JsonShape {
    Null,
    Bool(bool),
    Number(Seq<char>),
    Str(Seq<char>),
    Array(Seq<Seq<char>>),
    Object(Seq<(Seq<char>, Seq<char>)>),
}

/// A JSON value read one level deep; each child is its compact JSON text.
#[derive(Debug)]
pub enum JsonNode {
    Null,
    Bool(bool),
    Number(String),
    Str(String),
    Array(Vec<String>),
    Object(Vec<(String, String)>),
}

impl JsonNode {
    pub open spec fn shape(&self) -> JsonShape {
        match self {
            JsonNode::Null => JsonShape::Null,
            JsonNode::Bool(b) => JsonShape::Bool(*b),
            JsonNode::Number(n) => JsonShape::Number(n@),
            JsonNode::Str(s) => JsonShape::Str(s@),
            JsonNode::Array(items) => JsonShape::Array(items.deep_view()),
            JsonNode::Object(entries) => JsonShape::Object(entries.deep_view()),
        }
    }
}

/// What serde_json reads from `text`: `None` when it is not a JSON document.
pub uninterp spec fn json_shape(text: Seq<char>) -> Option<JsonShape>;

/// Relies on `serde_json::from_str` into a `serde_json::Value`, and on the
/// value's `Display`, which writes each child back as compact JSON.
#[verifier::external_body]
pub fn read_json(text: &str) -> (r: Option<JsonNode>)
    ensures
        json_shape(text@) == match r {
            Some(n) => Some(n.shape()),
            None => None,
        },
{
    let v: Value = serde_json::from_str(text).ok()?;
    Some(
        match v {
            Value::Null => JsonNode::Null,
            Value::Bool(b) => JsonNode::Bool(b),
            Value::Number(n) => JsonNode::Number(n.to_string()),
            Value::String(s) => JsonNode::Str(s),
            Value::Array(a) => JsonNode::Array(a.iter().map(Value::to_string).collect()),
            Value::Object(m) => JsonNode::Object(m.into_iter().map(|(k, x)| (k, x.to_string())).collect()),
        },
    )
}

/// The JSON text of the first entry named `key`.
pub open spec fn field(entries: Seq<(Seq<char>, Seq<char>)>, key: Seq<char>) -> Option<Seq<char>>
    decreases entries.len(),
{
    if entries.len() == 0 {
        None
    } else {
        match field(entries.drop_last(), key) {
            Some(v) => Some(v),
            None => if entries.last().0 == key {
                Some(entries.last().1)
            } else {
                None
            },
        }
    }
}

/// The JSON text of the first entry named `key`.
pub fn find_field(entries: &Vec<(String, String)>, key: &str) -> (r: Option<String>)
    ensures
        r.deep_view() == field(entries.deep_view(), key@),
{
    let ghost es = entries.deep_view();
    let mut found: Option<String> = None;
    let mut i: usize = 0;
    while i < entries.len()
        invariant
            es == entries.deep_view(),
            i <= entries@.len(),
            found.deep_view() == field(es.take(i as int), key@),
        decreases entries@.len() - i,
    {
        assert(es.take(i + 1).drop_last() =~= es.take(i as int));
        if found.is_none() && str_eq(entries[i].0.as_str(), key) {
            found = Some(entries[i].1.clone());
        }
        i = i + 1;
    }
    assert(es.take(entries@.len() as int) =~= es);
    found
}

} // verus!
