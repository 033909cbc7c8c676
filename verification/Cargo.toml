[package]
name = "rdnat"
version = "0.1.0"
edition = "2021"
publish = false

[dependencies]
base64 = "0.21"
env_logger = "0.10"
hyper = { version = "0.14", features = ["client", "http1", "tcp"] }
log = "0.4"
tokio = { version = "1", features = ["io-util", "macros", "net", "rt-multi-thread", "time"] }
