[package]
name = "ezsyslog"
version = "0.1.0"
edition = "2021"
publish = false

[dependencies]
syslog_loose = "=0.23.0"
anyhow = "=1.0.104"
ctrlc = "=3.5.2"
futures-util = "=0.3.34"
poem = { version = "=3.1.12", features = ["sse"] }
redis = { version = "=0.23.5", features = ["tokio-comp"] }
redis-graph = { version = "=0.4.4", features = ["tokio-comp"] }
serde = { version = "=1.0.229", features = ["derive"] }
serde_json = "=1.0.151"
tokio = { version = "=1.53.2", features = ["full"] }
tokio-stream = { version = "=0.1.19", features = ["sync"] }
