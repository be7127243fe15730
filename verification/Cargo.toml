[package]
name = "sidecar"
version = "0.1.0"
edition = "2021"
publish = false

[dependencies]
actix-web = "*"
agones = "*"
env_logger = "*"
log = "*"
rand = "*"
tokio = { version = "*", features = ["macros", "rt-multi-thread", "time", "sync"] }
