[package]
name = "otlp_logs_exporter"
version = "0.1.0"
edition = "2021"
publish = false

[dependencies]
tonic = { version = "*", features = ["zstd"] }
rand = "*"
tokio = { version = "*", features = ["rt", "sync", "time", "rt-multi-thread"] }
opentelemetry-proto = { version = "*", features = ["gen-tonic", "logs"] }
opentelemetry_sdk = { version = "*", features = ["logs"] }
