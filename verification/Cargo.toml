[package]
name = "ubervisor"
version = "0.1.0"
edition = "2021"
publish = false

[dependencies]
clap = "2.33"
env_logger = "0.9"
hyper = { version = "0.14", features = ["full"] }
hyperlocal = "0.8"
log = "0.4"
serde = { version = "1", features = ["derive"] }
serde_json = "1"
tokio = { version = "1", features = ["full"] }
toml = "0.5"
