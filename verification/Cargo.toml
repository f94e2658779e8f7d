[package]
name = "sshtunnel"
version = "0.1.0"
edition = "2021"
publish = false

[dependencies]
anyhow = "*"
env_logger = "*"
log = "*"
russh = "*"
tokio = { version = "*", features = ["full"] }
tokio-util = "*"
