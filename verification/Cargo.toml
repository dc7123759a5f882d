[package]
name = "kafka_benchmark"
version = "0.1.0"
edition = "2021"
publish = false

[dependencies]
base64 = "0.22"
chrono = "0.4"
env_logger = "*"
futures = "0.3"
log = "0.4"
opentelemetry-appender-tracing = "*"
opentelemetry-stdout = "*"
opentelemetry_sdk = "*"
rdkafka = "*"
serde_json = "1"
thiserror = "*"
tokio = { version = "1", features = ["full"] }
tracing = "0.1"
tracing-subscriber = { version = "0.3", features = ["env-filter"] }
