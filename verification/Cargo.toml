[package]
name = "bench_driver"
version = "0.1.0"
edition = "2021"
publish = false

[dependencies]
chrono = { version = "0.4", default-features = false, features = ["std"] }
env_logger = "0.11"
log = "0.4"
nix = { version = "0.29", features = ["signal"] }
