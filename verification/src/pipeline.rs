//! The decisions taken when the export pipeline is assembled.
//!
//! Building the exporter and registering the batching stage are the work of
//! the caller, which owns the network client and the asynchronous runtime.
//! What the exporter is built with, and what follows its construction, is
//! decided here.

use vstd::prelude::*;

use crate::endpoint::Endpoint;
use crate::endpoint::EndpointView;
use crate::endpoint::outcome_view;
use crate::endpoint::resolved;
use crate::error::TracingError;
use crate::error::TracingErrorView;
use crate::span_name::datadog_span_names;
use crate::span_name::SpanNameMapping;
use crate::span_resource::datadog_resource_attributes;
use crate::span_resource::SpanResourceMapping;
use crate::text::trim_trailing;

verus! {

/// The tunables of the batching stage. They are handed on as they are; a
/// tunable that is not set leaves the batching stage's own default in place.
#[derive(Debug, Clone, Copy, PartialEq, Eq)]
pub struct BatchConfig {
    /// The largest number of spans sent in one batch.
    pub max_export_batch_size: Option<u64>,
    /// The time, in milliseconds, after which an export is given up.
    pub max_export_timeout_ms: Option<u64>,
    /// The number of finished spans that may wait to be sent.
    pub max_queue_size: Option<u64>,
    /// The time, in milliseconds, between two scheduled exports.
    pub scheduled_delay_ms: Option<u64>,
}

impl Default for BatchConfig {
    /// No tunable set.
    fn default() -> (batch: BatchConfig)
        ensures
            batch == (BatchConfig {
                max_export_batch_size: None,
                max_export_timeout_ms: None,
                max_queue_size: None,
                scheduled_delay_ms: None,
            }),
    {
        BatchConfig {
            max_export_batch_size: None,
            max_export_timeout_ms: None,
            max_queue_size: None,
            scheduled_delay_ms: None,
        }
    }
}

/// The configuration of the Datadog backend.
#[derive(Debug, Clone, PartialEq, Eq)]
pub struct Config {
    /// Where the spans are sent.
    pub endpoint: Endpoint,
    /// The tunables of the batching stage.
    pub batch_processor: BatchConfig,
}

/// What the exporter is built with.
pub struct ExporterSettings {
    /// The agent address to set on the exporter; `None` leaves the
    /// exporter's own default address in place.
    pub agent_endpoint: Option<String>,
    /// The service under which the traces are grouped.
    pub service_name: String,
    /// The table behind the exporter's name mapping.
    pub names: SpanNameMapping,
    /// The table behind the exporter's resource mapping.
    pub resources: SpanResourceMapping,
}

/// The agent address for an endpoint: none for the default endpoint, else
/// the URL without the `/` characters at its end.
pub open spec fn agent_address_of(endpoint: EndpointView) -> Option<Seq<char>> {
    match endpoint {
        EndpointView::Default => None,
        EndpointView::Explicit(url) => Some(trim_trailing(url, '/')),
    }
}

/// The view of an optional text.
pub open spec fn text_view(text: Option<String>) -> Option<Seq<char>> {
    match text {
        Some(t) => Some(t@),
        None => None,
    }
}

impl Config {
    /// The configuration for an endpoint value and batch tunables as they
    /// stand in the configuration file. Fails with `ConfigValidation` exactly
    /// where the endpoint value does not resolve.
    pub fn new(endpoint: &str, batch_processor: BatchConfig) -> (outcome: Result<
        Config,
        TracingError,
    >)
        ensures
            match outcome {
                Ok(config) => resolved(endpoint@) == Ok::<EndpointView, TracingErrorView>(
                    config.endpoint@,
                ) && config.batch_processor == batch_processor,
                Err(error) => resolved(endpoint@) == Err::<EndpointView, TracingErrorView>(error@),
            },
    {
        match Endpoint::resolve(endpoint) {
            Ok(endpoint) => Ok(Config { endpoint, batch_processor }),
            Err(error) => Err(error),
        }
    }

    /// What the exporter is to be built with: the agent address only for an
    /// explicit endpoint, the service name as given, and the two fixed
    /// mapping tables.
    pub fn exporter_settings(&self, service_name: &str) -> (settings: ExporterSettings)
        ensures
            text_view(settings.agent_endpoint) == agent_address_of(self.endpoint@),
            settings.service_name@ == service_name@,
            settings.names@ == datadog_span_names(),
            settings.resources@ == datadog_resource_attributes(),
    {
        let agent_endpoint = match self.endpoint.agent_address() {
            Some(address) => Some(address.to_owned()),
            None => None,
        };
        ExporterSettings {
            agent_endpoint,
            service_name: service_name.to_owned(),
            names: SpanNameMapping::datadog(),
            resources: SpanResourceMapping::datadog(),
        }
    }

    /// What follows the exporter's construction. Where it succeeded, the
    /// batching stage is registered with the configured tunables; where it
    /// failed with `reason`, setup ends with `ExporterInit` and no stage is
    /// registered.
    pub fn batch_stage(&self, exporter: Result<(), String>) -> (outcome: Result<
        BatchConfig,
        TracingError,
    >)
        ensures
            match exporter {
                Ok(_) => outcome == Ok::<BatchConfig, TracingError>(self.batch_processor),
                Err(reason) => outcome matches Err(error) && error@
                    == (TracingErrorView::ExporterInit { reason: reason@ }),
            },
    {
        match exporter {
            Ok(_) => Ok(self.batch_processor),
            Err(reason) => Err(TracingError::ExporterInit { reason }),
        }
    }
}

} // verus!
