[package]
name = "jsonrpc_filter"
version = "0.1.0"
edition = "2021"
publish = false

[dependencies]
serde_json = "1"
hyper = { version = "0.14", features = ["full"] }
tokio = { version = "1", features = ["full"] }
futures = "0.3"
clap = "4"
log = "0.4"
pretty_env_logger = "0.5"
