[package]
name = "notification_broker"
version = "0.1.0"
edition = "2021"
publish = false

[dependencies]
serde = { version = "=1.0.229", features = ["derive"] }
serde_json = "=1.0.154"
tokio = { version = "=1.54.1", features = ["io-util", "macros", "net", "rt-multi-thread", "sync"] }
uuid = { version = "=1.29.0", features = ["v4"] }

[dev-dependencies]
tokio-util = { version = "=0.7.20", features = ["codec"] }
