[package]
name = "cat_feeder"
version = "0.1.0"
edition = "2021"
publish = false

[dependencies]
rppal = "0.11"
bytes = "0.5"
tokio = { version = "0.2", features = ["full"] }
tokio-util = { version = "0.3", features = ["codec"] }
tokio-serial = { version = "4.3", default-features = false }
hyper = "0.13"
futures = "0.3"
log = "0.4"
pretty_env_logger = "0.4"
askama = "0.10"
url = "2"
toml = "0.5"
serde = { version = "1", features = ["derive"] }
serde_derive = "1"
rascam = "*"
