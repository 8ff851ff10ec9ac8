use datadog_tracing::endpoint::Endpoint;
use datadog_tracing::error::TracingError;
use datadog_tracing::pipeline::BatchConfig;
use datadog_tracing::pipeline::Config;
use datadog_tracing::span::Span;
use opentelemetry::sdk::trace::EvictedHashMap;
use opentelemetry::KeyValue;

fn tuned() -> BatchConfig {
    BatchConfig {
        max_export_batch_size: Some(512),
        max_export_timeout_ms: Some(30_000),
        max_queue_size: Some(2048),
        scheduled_delay_ms: None,
    }
}

#[test]
fn batch_config_default_sets_nothing() {
    let batch = BatchConfig::default();
    assert_eq!(batch.max_export_batch_size, None);
    assert_eq!(batch.max_export_timeout_ms, None);
    assert_eq!(batch.max_queue_size, None);
    assert_eq!(batch.scheduled_delay_ms, None);
}

#[test]
fn config_new_resolves_the_endpoint_and_keeps_the_tunables() {
    let config = Config::new("collector:1234", tuned()).unwrap();
    assert_eq!(config.endpoint, Endpoint::Explicit("http://collector:1234/".to_string()));
    assert_eq!(config.batch_processor, tuned());
    let config = Config::new("default", BatchConfig::default()).unwrap();
    assert_eq!(config.endpoint, Endpoint::Default);
    assert_eq!(config.batch_processor, BatchConfig::default());
}

#[test]
fn config_new_fails_on_a_malformed_endpoint() {
    assert_eq!(
        Config::new("collector:port", tuned()),
        Err(TracingError::ConfigValidation { endpoint: "http://collector:port".to_string() })
    );
}

#[test]
fn exporter_settings_for_the_default_endpoint_set_no_address() {
    let config = Config { endpoint: Endpoint::Default, batch_processor: tuned() };
    let settings = config.exporter_settings("router");
    assert_eq!(settings.agent_endpoint, None);
    assert_eq!(settings.service_name, "router");
}

#[test]
fn exporter_settings_for_an_explicit_endpoint_trim_the_address() {
    let config = Config::new("https://collector:1234", tuned()).unwrap();
    let settings = config.exporter_settings("my-service");
    assert_eq!(settings.agent_endpoint, Some("https://collector:1234".to_string()));
    assert_eq!(settings.service_name, "my-service");
    let config = Config::new("collector:1234/agent//", tuned()).unwrap();
    let settings = config.exporter_settings("");
    assert_eq!(settings.agent_endpoint, Some("http://collector:1234/agent".to_string()));
    assert_eq!(settings.service_name, "");
}

#[test]
fn exporter_settings_carry_the_fixed_tables() {
    let config = Config { endpoint: Endpoint::Default, batch_processor: BatchConfig::default() };
    let settings = config.exporter_settings("router");
    assert_eq!(settings.names.map_name("subgraph_request"), "subgraph.request");
    assert_eq!(settings.names.map_name("other"), "apollo_router");
    let mut attrs = EvictedHashMap::new(8, 1);
    attrs.insert(KeyValue::new("graphql.operation.name", "MyQuery"));
    assert_eq!(
        settings.resources.map_resource(&Span { name: "query_planning", attributes: &attrs }),
        "MyQuery"
    );
}

#[test]
fn batch_stage_after_a_built_exporter_hands_the_tunables_on() {
    let config = Config { endpoint: Endpoint::Default, batch_processor: tuned() };
    assert_eq!(config.batch_stage(Ok(())), Ok(tuned()));
}

#[test]
fn batch_stage_after_a_failed_exporter_is_an_exporter_init_error() {
    let config = Config { endpoint: Endpoint::Default, batch_processor: tuned() };
    assert_eq!(
        config.batch_stage(Err("no http client".to_string())),
        Err(TracingError::ExporterInit { reason: "no http client".to_string() })
    );
}

#[test]
fn error_messages_name_the_cause() {
    let error = TracingError::ConfigValidation { endpoint: "http://collector:port".to_string() };
    assert_eq!(error.message(), "invalid Datadog agent endpoint: http://collector:port");
    let error = TracingError::ExporterInit { reason: "no http client".to_string() };
    assert_eq!(error.message(), "cannot initialize the Datadog exporter: no http client");
    let error = TracingError::ExporterInit { reason: String::new() };
    assert_eq!(error.message(), "cannot initialize the Datadog exporter: ");
}
