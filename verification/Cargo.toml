[package]
name = "runner-agent"
version = "0.1.0"
edition = "2021"
publish = false

[dependencies]
anyhow = "1"
axum = "=0.7.9"
bollard = "=0.17.1"
chrono = { version = "=0.4.45", features = ["serde"] }
config = { version = "0.14", default-features = false, features = ["toml"] }
futures = "=0.3.34"
rdkafka = "=0.36.2"
serde = { version = "=1.0.229", features = ["derive"] }
serde_json = "=1.0.154"
shellexpand = "=3.1.2"
thiserror = "=1.0.69"
tokio = { version = "=1.54.1", features = ["full"] }
tokio-retry = "=0.3.2"
tonic = "=0.12.3"
tracing = "=0.1.44"
tracing-subscriber = { version = "=0.3.23", features = ["env-filter", "json"] }
uuid = { version = "=1.29.0", features = ["v4"] }
