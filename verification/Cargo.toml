[package]
name = "anyqueue"
version = "0.1.0"
edition = "2021"
publish = false

[dependencies]
redis = { version = "=0.27.6", features = ["tokio-comp"] }
serde = { version = "=1.0.229", features = ["derive"] }
serde_json = "=1.0.154"
tokio = { version = "=1.54.1", features = ["full"] }
async-trait = "=0.1.92"
uuid = { version = "=1.29.0", features = ["v4"] }
getrandom = "=0.4.3"
log = "=0.4.35"
env_logger = "=0.11.11"
