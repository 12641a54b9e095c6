[package]
name = "herald"
version = "0.1.0"
edition = "2021"
publish = false

[dependencies]
async-trait = "=0.1.92"
axum = "=0.8.9"
chrono = "=0.4.45"
mdns-sd = "=0.21.7"
orra = "=0.0.2"
serde = { version = "=1.0.229", features = ["derive"] }
serde_json = "=1.0.154"
tokio = { version = "=1.54.1", features = ["rt-multi-thread", "net", "sync", "time", "macros"] }
tokio-util = "=0.7.20"
uuid = { version = "=1.29.0", features = ["v4"] }
