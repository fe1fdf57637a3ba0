[package]
name = "panasonic_ac"
version = "0.1.0"
edition = "2021"
publish = false

[dependencies]
bitvec = "1"
thiserror = "1"
log = "0.4"
env_logger = "0.11"
chrono = "0.4"
clap = { version = "4", features = ["derive"] }
rppal = "0.19"
