[package]
name = "faas"
version = "0.1.0"
edition = "2021"
publish = false

[dependencies]
axum = { version = "=0.6.20", features = ["ws", "macros"] }
config = { version = "=0.13.4", default-features = false, features = ["toml"] }
crossbeam-channel = "=0.5.17"
diesel = { version = "=2.1.6", default-features = false, features = ["postgres_backend", "serde_json"] }
diesel-async = { version = "=0.4.1", features = ["postgres", "bb8"] }
futures = "=0.3.34"
futures-util = "=0.3.34"
rand = "=0.8.8"
serde = { version = "=1.0.229", features = ["derive"] }
serde_json = "=1.0.154"
thiserror = "=1.0.69"
tokio = { version = "=1.54.1", features = ["full"] }
tower = "=0.4.13"
tower-http = { version = "=0.4.4", features = ["cors", "fs", "trace"] }
tracing = "=0.1.44"
tracing-subscriber = "=0.3.23"
uuid = { version = "=1.29.0", features = ["v4"] }
wasmer = "=6.1.0"
