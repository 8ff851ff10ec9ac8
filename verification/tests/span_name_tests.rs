use datadog_tracing::span_name::SpanNameMapping;
use datadog_tracing::span_name::FALLBACK_SPAN_NAME;

#[test]
fn fallback_name_is_the_router() {
    assert_eq!(FALLBACK_SPAN_NAME, "apollo_router");
}

#[test]
fn map_name_gives_each_tabulated_name() {
    let names = SpanNameMapping::datadog();
    assert_eq!(names.map_name("request"), "supergraph.request");
    assert_eq!(names.map_name("router"), "supergraph.router");
    assert_eq!(names.map_name("supergraph"), "supergraph.operation");
    assert_eq!(names.map_name("query_planning"), "supergraph.query_planning");
    assert_eq!(names.map_name("execution"), "supergraph.execute");
    assert_eq!(names.map_name("fetch"), "supergraph.fetch");
    assert_eq!(names.map_name("subgraph"), "subgraph.operation");
    assert_eq!(names.map_name("subgraph_request"), "subgraph.request");
}

#[test]
fn map_name_falls_back_for_unlisted_kinds() {
    let names = SpanNameMapping::datadog();
    assert_eq!(names.map_name("unrelated_kind"), "apollo_router");
    assert_eq!(names.map_name(""), "apollo_router");
    assert_eq!(names.map_name("Request"), "apollo_router");
    assert_eq!(names.map_name("request "), "apollo_router");
    assert_eq!(names.map_name("supergraph.request"), "apollo_router");
    assert_eq!(names.map_name("parse_query"), "apollo_router");
    assert_eq!(names.map_name("requ\u{ea}te"), "apollo_router");
}

#[test]
fn map_name_gives_the_same_name_each_time() {
    let names = SpanNameMapping::datadog();
    for kind in ["request", "fetch", "subgraph_request", "unknown", ""] {
        assert_eq!(names.map_name(kind), names.map_name(kind));
    }
    let again = SpanNameMapping::datadog();
    assert_eq!(names.map_name("execution"), again.map_name("execution"));
}
