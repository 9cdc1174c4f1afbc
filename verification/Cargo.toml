[package]
name = "loki_source"
version = "0.1.0"
edition = "2021"
publish = false

[dependencies]
base64 = "*"
url = "2"
serde = { version = "1", features = ["derive"] }
serde_json = "1"
tokio = { version = "1", features = ["rt", "time", "net", "macros"] }
tokio-tungstenite = "*"
futures = "0.3"
