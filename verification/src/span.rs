//! The part of an exported span that the mappings read: its name and its
//! attributes, the latter kept in the tracing SDK's own map.

use opentelemetry::sdk::trace::EvictedHashMap;
use opentelemetry::Key;
use opentelemetry::Value;
use vstd::prelude::*;

verus! {

#[verifier::external_type_specification]
#[verifier::external_body]
pub struct ExEvictedHashMap(EvictedHashMap);

/// The value of a span attribute, as far as the mappings tell values apart:
/// booleans, integers and texts with what they hold, floating-point numbers
/// and arrays by their kind alone.
#[derive(Debug, Clone, Copy, PartialEq, Eq)]
pub enum AttributeValue<'a> {
    Bool(bool),
    Int(i64),
    Float,
    Text(&'a str),
    Array,
}

/// An `AttributeValue` with its text as a character sequence.
pub enum AttributeView {
    Bool(bool),
    Int(i64),
    Float,
    Text(Seq<char>),
    Array,
}

impl<'a> View for AttributeValue<'a> {
    type V = AttributeView;

    open spec fn view(&self) -> AttributeView {
        match self {
            AttributeValue::Bool(b) => AttributeView::Bool(*b),
            AttributeValue::Int(i) => AttributeView::Int(*i),
            AttributeValue::Float => AttributeView::Float,
            AttributeValue::Text(text) => AttributeView::Text(text@),
            AttributeValue::Array => AttributeView::Array,
        }
    }
}

/// The attributes that a map holds, by key.
pub uninterp spec fn attributes_of(attributes: EvictedHashMap) -> Map<Seq<char>, AttributeView>;

/// Looks `key` up with `EvictedHashMap::get`, which compares keys by their
/// text, and hands the value out by its variant: `None` where the map has no
/// such key, else the value that the map holds for it.
#[verifier::external_body]
pub(crate) fn attribute<'a>(attributes: &'a EvictedHashMap, key: &'static str) -> (found: Option<
    AttributeValue<'a>,
>)
    ensures
        match found {
            Some(value) => attributes_of(*attributes).contains_key(key@) && attributes_of(
                *attributes,
            )[key@] == value@,
            None => !attributes_of(*attributes).contains_key(key@),
        },
{
    match attributes.get(&Key::from_static_str(key)) {
        None => None,
        Some(Value::Bool(b)) => Some(AttributeValue::Bool(*b)),
        Some(Value::I64(i)) => Some(AttributeValue::Int(*i)),
        Some(Value::F64(_)) => Some(AttributeValue::Float),
        Some(Value::String(text)) => Some(AttributeValue::Text(text.as_str())),
        Some(Value::Array(_)) => Some(AttributeValue::Array),
    }
}

/// A finished span as the mappings see it. Nothing in it is ever changed.
pub struct Span<'a> {
    /// The span's name, which is also its kind.
    pub name: &'a str,
    /// The span's attributes.
    pub attributes: &'a EvictedHashMap,
}

} // verus!
