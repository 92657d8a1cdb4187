[package]
name = "forward_proxy"
version = "0.1.0"
edition = "2021"
publish = false

[dependencies]
url = "2"
tokio = { version = "1", features = ["full"] }
log = "0.4"
env_logger = "0.11"
