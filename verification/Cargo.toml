[package]
name = "containerspy"
version = "0.1.0"
edition = "2021"
publish = false

[dependencies]
anyhow = "=1.0.104"
bollard = "=0.18.1"
chrono = "=0.4.45"
confique = { version = "=0.3.1", features = ["toml", "json5"] }
opentelemetry = { version = "=0.31.0", features = ["metrics"] }
opentelemetry-otlp = { version = "=0.31.1", features = ["metrics", "grpc-tonic", "http-proto", "http-json"] }
opentelemetry_sdk = { version = "=0.31.0", features = ["metrics"] }
tokio = { version = "=1.53.2", features = ["rt", "macros", "signal", "time", "sync"] }
tokio-stream = "=0.1.19"
tokio-util = "=0.7.19"
