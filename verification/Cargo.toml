[package]
name = "bozochat"
version = "0.1.0"
edition = "2021"
publish = false

[dependencies]
serde = { version = "1", features = ["derive"] }
serde_json = "1"
log = "0.4"
env_logger = { version = "0.11", default-features = false }
dirs = "5"
tokio = { version = "1", features = ["rt-multi-thread", "sync", "time", "net", "macros"] }
tokio-tungstenite = "*"
futures-util = "0.3"
ico = "*"
raw-window-handle = "0.6"
