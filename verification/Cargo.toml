[package]
name = "gateway"
version = "0.1.0"
edition = "2021"
publish = false

[dependencies]
rand = "*"
tokio = { version = "1", features = ["rt-multi-thread", "macros", "sync", "time", "net", "signal"] }
tokio-modbus = "*"
rumqttc = "*"
axum = "*"
serde = { version = "1", features = ["derive"] }
serde_json = "1"
chrono = "0.4"
toml = "*"
tracing = "0.1"
tracing-subscriber = { version = "0.3", features = ["env-filter"] }
anyhow = "1"
async-trait = "0.1"
