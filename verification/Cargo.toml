[package]
name = "pgp_relay"
version = "0.1.0"
edition = "2021"
publish = false

[dependencies]
axum = "=0.8.9"
env_logger = "=0.11.11"
lettre = "=0.11.23"
log = "=0.4.34"
rand = "=0.9.5"
serde = { version = "=1.0.229", features = ["derive"] }
serde_json = "=1.0.154"
tokio = { version = "=1.54.1", features = ["full"] }
uuid = { version = "=1.29.0", features = ["v4"] }
validator = "=0.21.0"

[dev-dependencies]
regex = "=1.13.1"
