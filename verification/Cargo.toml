[package]
name = "sandbox_runner"
version = "0.1.0"
edition = "2021"
publish = false

[dependencies]
fs_extra = "1"
futures = "0.3"
rabbitmq-stream-client = "*"
serde = { version = "1", features = ["derive"] }
serde_yaml = "0.9"
tokio = { version = "1", features = ["full"] }
uuid = { version = "1", features = ["v4"] }
