[package]
name = "otel_trace"
version = "0.1.0"
edition = "2021"
publish = false

[dependencies]
anyhow = "1"
axum = { version = "0.8", default-features = false }
opentelemetry = { version = "0.27", features = ["trace"] }
opentelemetry-otlp = { version = "0.27", default-features = false, features = ["trace", "grpc-tonic"] }
opentelemetry_sdk = { version = "0.27", features = ["trace", "rt-tokio"] }
tokio = { version = "1", features = ["rt"] }
tracing = "0.1"
tracing-opentelemetry = { version = "0.28", default-features = false }
tracing-subscriber = { version = "0.3", default-features = false, features = ["std", "registry"] }

[dev-dependencies]
opentelemetry-http = { version = "0.27", default-features = false }
opentelemetry_sdk = { version = "0.27", features = ["testing"] }
tokio = { version = "1", features = ["rt-multi-thread", "time", "net"] }
