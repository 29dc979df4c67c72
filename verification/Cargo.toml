[package]
name = "logappender"
version = "0.1.0"
edition = "2021"
publish = false

[dependencies]
async-trait = "*"
chrono = "0.4"
config = { version = "*", default-features = false, features = ["toml"] }
log = "0.4"
once_cell = "*"
pretty_env_logger = "*"
rdkafka = "*"
serde = { version = "1", features = ["derive"] }
serde_json = "1"
tokio = { version = "1", features = ["full"] }
tokio-retry = "*"
tracing = "*"
