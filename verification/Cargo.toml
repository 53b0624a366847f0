[package]
name = "helix_gateway"
version = "0.1.0"
edition = "2021"
publish = false

[dependencies]
axum = "=0.8.9"
bytes = "=1.12.1"
eyre = "=0.6.14"
futures = "=0.3.34"
governor = "=0.10.4"
inventory = "=0.3.25"
lockfree = "=0.5.1"
pbjson-types = "=0.9.0"
prost = "=0.14.4"
redis = { version = "=1.8.1", features = ["tokio-comp", "connection-manager"] }
reqwest = { version = "=0.13.5", features = ["json"] }
rig-core = "=0.38.2"
serde = { version = "=1.0.229", features = ["derive"] }
serde_json = "=1.0.154"
sonic-rs = "=0.5.10"
thiserror = "=2.0.21"
tokio = { version = "=1.54.1", features = ["full"] }
tokio-retry = "=0.3.2"
tonic = "=0.14.9"
tonic-prost = "=0.14.9"
tower-http = { version = "=0.6.11", features = ["timeout", "trace"] }
tracing = "=0.1.44"
tracing-subscriber = { version = "=0.3.23", features = ["env-filter"] }
