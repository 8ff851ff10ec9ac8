//! Adapts generic tracing spans to the naming conventions of a Datadog
//! agent: endpoint resolution, span-name mapping and span-resource mapping,
//! together with the settings handed to the exporter pipeline.

pub mod endpoint;
pub mod error;
pub mod pipeline;
pub mod span;
pub mod span_name;
pub mod span_resource;
pub mod table;
pub mod text;
