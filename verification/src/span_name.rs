//! The names under which spans are shown by the backend.

use vstd::prelude::*;

use crate::table::StrTable;

verus! {

/// The name given to a span of a kind that the table does not list.
pub const FALLBACK_SPAN_NAME: &'static str = "apollo_router";

/// The fixed table from span kind to backend name.
pub open spec fn datadog_span_names() -> Map<Seq<char>, Seq<char>> {
    Map::<Seq<char>, Seq<char>>::empty().insert("request"@, "supergraph.request"@).insert(
        "router"@,
        "supergraph.router"@,
    ).insert("supergraph"@, "supergraph.operation"@).insert(
        "query_planning"@,
        "supergraph.query_planning"@,
    ).insert("execution"@, "supergraph.execute"@).insert("fetch"@, "supergraph.fetch"@).insert(
        "subgraph"@,
        "subgraph.operation"@,
    ).insert("subgraph_request"@, "subgraph.request"@)
}

/// The backend name of a span kind under a table: the listed name, or the
/// fallback for a kind that is not listed.
pub open spec fn backend_name(names: Map<Seq<char>, Seq<char>>, kind: Seq<char>) -> Seq<char> {
    if names.contains_key(kind) {
        names[kind]
    } else {
        FALLBACK_SPAN_NAME@
    }
}

/// A read-only table from span kind to backend name.
pub struct SpanNameMapping {
    table: StrTable,
}

impl View for SpanNameMapping {
    type V = Map<Seq<char>, Seq<char>>;

    closed spec fn view(&self) -> Map<Seq<char>, Seq<char>> {
        self.table@
    }
}

impl SpanNameMapping {
    /// The fixed table of the Datadog backend.
    pub fn datadog() -> (names: SpanNameMapping)
        ensures
            names@ == datadog_span_names(),
    {
        let mut table = StrTable::new();
        table.insert("request", "supergraph.request");
        table.insert("router", "supergraph.router");
        table.insert("supergraph", "supergraph.operation");
        table.insert("query_planning", "supergraph.query_planning");
        table.insert("execution", "supergraph.execute");
        table.insert("fetch", "supergraph.fetch");
        table.insert("subgraph", "subgraph.operation");
        table.insert("subgraph_request", "subgraph.request");
        SpanNameMapping { table }
    }

    /// The backend name for a span kind. Total: an unlisted kind gets the
    /// fallback name.
    pub fn map_name(&self, span_kind: &str) -> (name: &'static str)
        ensures
            name@ == backend_name(self@, span_kind@),
    {
        match self.table.get(span_kind) {
            Some(name) => name,
            None => FALLBACK_SPAN_NAME,
        }
    }
}

/// The rows of the fixed table: it lists eight kinds, each with its own
/// backend name.
pub proof fn lemma_datadog_span_names()
    ensures
        datadog_span_names().dom() =~= set![
            "request"@,
            "router"@,
            "supergraph"@,
            "query_planning"@,
            "execution"@,
            "fetch"@,
            "subgraph"@,
            "subgraph_request"@,
        ],
        datadog_span_names()["request"@] == "supergraph.request"@,
        datadog_span_names()["router"@] == "supergraph.router"@,
        datadog_span_names()["supergraph"@] == "supergraph.operation"@,
        datadog_span_names()["query_planning"@] == "supergraph.query_planning"@,
        datadog_span_names()["execution"@] == "supergraph.execute"@,
        datadog_span_names()["fetch"@] == "supergraph.fetch"@,
        datadog_span_names()["subgraph"@] == "subgraph.operation"@,
        datadog_span_names()["subgraph_request"@] == "subgraph.request"@,
{
    reveal_strlit("request");
    reveal_strlit("router");
    reveal_strlit("supergraph");
    reveal_strlit("query_planning");
    reveal_strlit("execution");
    reveal_strlit("fetch");
    reveal_strlit("subgraph");
    reveal_strlit("subgraph_request");
    assert("request"@.len() == 7);
    assert("router"@.len() == 6);
    assert("supergraph"@.len() == 10);
    assert("query_planning"@.len() == 14);
    assert("execution"@.len() == 9);
    assert("fetch"@.len() == 5);
    assert("subgraph"@.len() == 8);
    assert("subgraph_request"@.len() == 16);
}

/// A listed kind is shown under its listed name, and every other kind under
/// the fallback name.
pub proof fn lemma_backend_name(names: Map<Seq<char>, Seq<char>>, kind: Seq<char>)
    ensures
        names.contains_key(kind) ==> backend_name(names, kind) == names[kind],
        !names.contains_key(kind) ==> backend_name(names, kind) == FALLBACK_SPAN_NAME@,
{
}

/// Mapping a name reads nothing but the table and the kind: two results
/// that `map_name` may give for equal tables and equal kinds are equal.
pub proof fn lemma_map_name_deterministic(
    names: SpanNameMapping,
    again: SpanNameMapping,
    kind: &str,
    same_kind: &str,
    first: &str,
    second: &str,
)
    requires
        names@ == again@,
        kind@ == same_kind@,
        first@ == backend_name(names@, kind@),
        second@ == backend_name(again@, same_kind@),
    ensures
        first@ == second@,
{
}

} // verus!
