[package]
name = "danmaku_relay"
version = "0.1.0"
edition = "2021"
publish = false

[dependencies]
bilive-danmaku = { version = "=0.3.0", features = ["rt_tokio", "json", "bincode"] }
chrono = "=0.4.45"
diesel = { version = "=2.3.14", features = ["postgres", "r2d2", "chrono"] }
env_logger = "=0.11.11"
futures-util = "=0.3.34"
log = "=0.4.35"
mongodb = "=2.8.2"
serde = { version = "=1.0.229", features = ["derive"] }
serde_json = "=1.0.154"
tokio = { version = "=1.54.1", features = ["full"] }
tokio-tungstenite = "0.19"
toml = "=0.5.11"
