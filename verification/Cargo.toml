[package]
name = "stream_service"
version = "0.1.0"
edition = "2021"
publish = false

[dependencies]
uuid = { version = "*", features = ["v4"] }
axum = "*"
tokio = { version = "*", features = ["full"] }
tower = "*"
tower-http = { version = "*", features = ["trace", "timeout", "request-id", "util"] }
tracing = "*"
tracing-subscriber = { version = "*", features = ["env-filter"] }
