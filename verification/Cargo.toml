[package]
name = "read_metadata"
version = "0.1.0"
edition = "2021"
publish = false

[dependencies]
clap = "*"
env_logger = "*"
error-chain = "*"
log = "*"
reqwest = { version = "*", features = ["blocking"] }
scraper = "*"
serde_json = { version = "*", features = ["preserve_order"] }
url = "*"
