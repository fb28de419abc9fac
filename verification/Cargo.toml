[package]
name = "transport_channel"
version = "0.1.0"
edition = "2021"
publish = false

[dependencies]
axum = { version = "0.8", default-features = false }
http = "1"
hyper = { version = "1", features = ["client", "http2"] }
tokio = { version = "1", features = ["time"] }
tower = { version = "0.5", features = ["limit", "load", "util"] }
tower-service = "0.3"
tracing = "0.1"
