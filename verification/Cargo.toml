[package]
name = "barflow_controller"
version = "0.1.0"
edition = "2021"
publish = false

[dependencies]
redis = "*"
rodbus = "*"
tokio = { version = "1", features = ["full"] }
tonic = "0.12"
prost = "0.13"
log = "0.4"
env_logger = "*"
serde = "1"
serde_derive = "1"
toml = "*"
