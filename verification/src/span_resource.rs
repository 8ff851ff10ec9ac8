//! The resource label that the backend shows for a span.
//!
//! Each span kind may name one attribute that holds its label: the route of a
//! request, the operation name of a query. A span whose kind names none, or
//! that lacks the attribute, or that holds something other than text under
//! it, is labelled with its own name.

use vstd::prelude::*;

use crate::span::attribute;
use crate::span::attributes_of;
use crate::span::AttributeValue;
use crate::span::AttributeView;
use crate::span::Span;
use crate::table::StrTable;

verus! {

/// The fixed table from span kind to the attribute that holds its label.
pub open spec fn datadog_resource_attributes() -> Map<Seq<char>, Seq<char>> {
    Map::<Seq<char>, Seq<char>>::empty().insert("request"@, "http.route"@).insert(
        "supergraph"@,
        "graphql.operation.name"@,
    ).insert("query_planning"@, "graphql.operation.name"@).insert(
        "subgraph"@,
        "graphql.operation.name"@,
    ).insert("subgraph_request"@, "graphql.operation.name"@)
}

/// The label of a span named `name`, given what the span holds under the
/// attribute that its kind names: that text, or the span's name where the
/// attribute is missing or is not text.
pub open spec fn label_from(name: Seq<char>, found: Option<AttributeView>) -> Seq<char> {
    match found {
        Some(AttributeView::Text(text)) => text,
        _ => name,
    }
}

/// What a set of attributes holds under a key.
pub open spec fn held_under(attributes: Map<Seq<char>, AttributeView>, key: Seq<char>) -> Option<
    AttributeView,
> {
    if attributes.contains_key(key) {
        Some(attributes[key])
    } else {
        None
    }
}

/// The label of a span under a table: the span's name where its kind names
/// no attribute, else the label that the named attribute gives.
pub open spec fn resource_label(
    keys: Map<Seq<char>, Seq<char>>,
    name: Seq<char>,
    attributes: Map<Seq<char>, AttributeView>,
) -> Seq<char> {
    if keys.contains_key(name) {
        label_from(name, held_under(attributes, keys[name]))
    } else {
        name
    }
}

/// The view of a looked-up attribute.
pub open spec fn found_view(found: Option<AttributeValue>) -> Option<AttributeView> {
    match found {
        Some(value) => Some(value@),
        None => None,
    }
}

/// The label of a span named `name` that holds `found` under the attribute
/// of its kind. A missing attribute and one of the wrong type are treated
/// alike: both give the span's name.
pub fn label_or_name<'a>(name: &'a str, found: Option<AttributeValue<'a>>) -> (label: &'a str)
    ensures
        label@ == label_from(name@, found_view(found)),
{
    match found {
        Some(AttributeValue::Text(text)) => text,
        _ => name,
    }
}

/// A read-only table from span kind to the key of the attribute that labels
/// spans of that kind.
pub struct SpanResourceMapping {
    table: StrTable,
}

impl View for SpanResourceMapping {
    type V = Map<Seq<char>, Seq<char>>;

    closed spec fn view(&self) -> Map<Seq<char>, Seq<char>> {
        self.table@
    }
}

impl SpanResourceMapping {
    /// The fixed table of the Datadog backend.
    pub fn datadog() -> (keys: SpanResourceMapping)
        ensures
            keys@ == datadog_resource_attributes(),
    {
        let mut table = StrTable::new();
        table.insert("request", "http.route");
        table.insert("supergraph", "graphql.operation.name");
        table.insert("query_planning", "graphql.operation.name");
        table.insert("subgraph", "graphql.operation.name");
        table.insert("subgraph_request", "graphql.operation.name");
        SpanResourceMapping { table }
    }

    /// The resource label of a span. Total: a missing attribute and one that
    /// is not text both fall back to the span's name.
    pub fn map_resource<'a>(&self, span: &Span<'a>) -> (resource: &'a str)
        ensures
            resource@ == resource_label(self@, span.name@, attributes_of(*span.attributes)),
    {
        match self.table.get(span.name) {
            None => span.name,
            Some(key) => label_or_name(span.name, attribute(span.attributes, key)),
        }
    }
}

/// The rows of the fixed table: it lists five kinds, a request with its
/// route and the others with the operation name.
pub proof fn lemma_datadog_resource_attributes()
    ensures
        datadog_resource_attributes().dom() =~= set![
            "request"@,
            "supergraph"@,
            "query_planning"@,
            "subgraph"@,
            "subgraph_request"@,
        ],
        datadog_resource_attributes()["request"@] == "http.route"@,
        datadog_resource_attributes()["supergraph"@] == "graphql.operation.name"@,
        datadog_resource_attributes()["query_planning"@] == "graphql.operation.name"@,
        datadog_resource_attributes()["subgraph"@] == "graphql.operation.name"@,
        datadog_resource_attributes()["subgraph_request"@] == "graphql.operation.name"@,
{
    reveal_strlit("request");
    reveal_strlit("supergraph");
    reveal_strlit("query_planning");
    reveal_strlit("subgraph");
    reveal_strlit("subgraph_request");
    assert("request"@.len() == 7);
    assert("supergraph"@.len() == 10);
    assert("query_planning"@.len() == 14);
    assert("subgraph"@.len() == 8);
    assert("subgraph_request"@.len() == 16);
}

/// The cases of the resource label. A span is labelled with the text under
/// the attribute that its kind names; in every other case, whatever else it
/// holds, it is labelled with its own name: where its kind names no
/// attribute, where it has no attributes at all, where it lacks that one,
/// and where that one is not text.
pub proof fn lemma_resource_label_cases(
    keys: Map<Seq<char>, Seq<char>>,
    name: Seq<char>,
    attributes: Map<Seq<char>, AttributeView>,
)
    ensures
        !keys.contains_key(name) ==> resource_label(keys, name, attributes) == name,
        attributes.dom() =~= Set::<Seq<char>>::empty() ==> resource_label(keys, name, attributes)
            == name,
        keys.contains_key(name) && !attributes.contains_key(keys[name]) ==> resource_label(
            keys,
            name,
            attributes,
        ) == name,
        keys.contains_key(name) && attributes.contains_key(keys[name]) && !(attributes[keys[name]]
            is Text) ==> resource_label(keys, name, attributes) == name,
        keys.contains_key(name) && attributes.contains_key(keys[name]) && attributes[keys[name]]
            is Text ==> resource_label(keys, name, attributes) == attributes[keys[name]]->Text_0,
{
    if attributes.dom() =~= Set::<Seq<char>>::empty() && keys.contains_key(name) {
        assert(!attributes.dom().contains(keys[name]));
    }
}

/// Mapping a resource reads nothing but the table, the span's name and its
/// attributes: two results that `map_resource` may give for equal tables and
/// spans that agree in name and attributes are equal.
pub proof fn lemma_map_resource_deterministic(
    keys: SpanResourceMapping,
    again: SpanResourceMapping,
    span: Span,
    same_span: Span,
    first: &str,
    second: &str,
)
    requires
        keys@ == again@,
        span.name@ == same_span.name@,
        attributes_of(*span.attributes) == attributes_of(*same_span.attributes),
        first@ == resource_label(keys@, span.name@, attributes_of(*span.attributes)),
        second@ == resource_label(
            again@,
            same_span.name@,
            attributes_of(*same_span.attributes),
        ),
    ensures
        first@ == second@,
{
}

} // verus!
