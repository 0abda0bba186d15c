[package]
name = "dns_decoder"
version = "0.1.0"
edition = "2021"
publish = false

[dependencies]
tokio = { version = "1", features = ["net", "macros", "rt-multi-thread"] }
log = "0.4"
env_logger = "*"
