[package]
name = "user_service"
version = "0.1.0"
edition = "2021"
publish = false

[dependencies]
bb8-bolt = "*"
env_logger = "*"
futures-core = "*"
log = "*"
tokio = { version = "*", features = ["rt-multi-thread", "signal", "macros"] }
tonic = "*"
tonic-health = "*"
