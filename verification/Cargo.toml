[package]
name = "linkerd_app_outbound"
version = "0.1.0"
edition = "2021"
publish = false

[dependencies]
ahash = "0.8"
futures = "0.3"
http = "1"
parking_lot = "0.12"
prometheus-client = "0.23"
thiserror = "2"
tokio = { version = "1", features = ["sync", "time", "rt", "macros"] }
tonic = { version = "0.12", default-features = false }
tracing = "0.1"
