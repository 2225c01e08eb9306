[package]
name = "hybridguard"
version = "0.1.0"
edition = "2021"
publish = false

[dependencies]
sha2 = "0.10"
sha3 = "0.10"
rand = "0.8"
serde = { version = "1", features = ["derive"] }
serde_json = "1"
chrono = "0.4"
bincode = "1.3"
clap = { version = "4", features = ["derive"] }
colored = "2"
env_logger = "0.11"
log = "0.4"
thiserror = "1"
