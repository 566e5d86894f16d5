[package]
name = "flow"
version = "0.1.0"
edition = "2021"
publish = false

[dependencies]
anyhow = "*"
bs58 = "*"
clap = { version = "*", features = ["derive"] }
colored = "*"
env_logger = "*"
log = "*"
serde_json = "*"
