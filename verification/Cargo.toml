[package]
name = "bihelix"
version = "0.1.0"
edition = "2021"
publish = false

[dependencies]
bitcoin = "=0.29.2"
rand = "=0.8.8"
bip39 = "2"
serde_json = "1"
anyhow = "1"
clap = { version = "4", features = ["derive"] }
log = "0.4"
env_logger = "0.10"
electrum-client = "0.18"
rocksdb = { version = "0.21", default-features = false }
