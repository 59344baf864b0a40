[package]
name = "inference_gateway"
version = "0.1.0"
edition = "2021"
publish = false

[dependencies]
serde = { version = "=1.0.229", features = ["derive"] }
serde_json = "=1.0.154"
serde_yaml = "=0.9.34"
llama-rs = { version = "=0.16.1", default-features = false }
dashmap = "=6.2.1"
parking_lot = "=0.12.5"
prometheus = { version = "=0.13.4", default-features = false }
axum = "=0.7.9"
tokio = { version = "=1.54.1", features = ["full"] }
async-trait = "=0.1.92"
thiserror = "=1.0.69"
tracing = "=0.1.44"
tracing-subscriber = { version = "=0.3.23", features = ["env-filter"] }
uuid = { version = "=1.29.0", features = ["v4"] }
num_cpus = "=1.17.0"
anyhow = "=1.0.104"
