[package]
name = "vecindex"
version = "0.1.0"
edition = "2021"
publish = false

[dependencies]
axum = "*"
csv = "*"
env_logger = "*"
log = "*"
qdrant-client = "*"
rust-bert = "*"
serde = { version = "*", features = ["derive"] }
serde_json = "*"
tokio = { version = "*", features = ["full"] }
