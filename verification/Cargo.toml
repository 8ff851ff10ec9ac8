[package]
name = "datadog_tracing"
version = "0.1.0"
edition = "2021"
publish = false

[dependencies]
lazy_static = "1"
opentelemetry = { version = "0.18", features = ["rt-tokio"] }
opentelemetry-datadog = { version = "0.6", features = ["reqwest-client"] }
schemars = "0.8"
serde = { version = "1", features = ["derive"] }
tower = "0.4"
tracing = "0.1"
url = "2"

[dev-dependencies]
serde_yaml = "0.9"
