[package]
name = "telemetry_lab"
version = "0.1.0"
edition = "2021"
publish = false

[dependencies]
rand = "*"
log = "*"
simple_logger = "*"
json_log = "*"
opentelemetry = { version = "*", features = ["metrics", "logs"] }
opentelemetry_sdk = { version = "*", features = ["metrics", "logs", "rt-tokio"] }
opentelemetry-otlp = { version = "*", default-features = false, features = ["grpc-tonic", "metrics", "logs"] }
opentelemetry-stdout = { version = "*", features = ["logs"] }
opentelemetry-appender-log = "*"
opentelemetry-semantic-conventions = { version = "*", features = ["semconv_experimental"] }
opentelemetry-prometheus = "*"
prometheus = "*"
tokio = { version = "*", features = ["full"] }
axum = "*"
hyper = { version = "*", features = ["server", "http1", "http2"] }
hyper-util = { version = "*", features = ["server-auto", "tokio"] }
http-body-util = "*"
bytes = "*"
once_cell = "*"
serde = { version = "*", features = ["derive"] }
