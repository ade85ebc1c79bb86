[package]
name = "netstatsd"
version = "0.1.0"
edition = "2021"
publish = false

[dependencies]
again = "0.1"
anyhow = "1"
base64 = "0.13"
ed25519-dalek = "2"
env_logger = "0.11"
log = "0.4"
reqwest = { version = "0.11", features = ["json"] }
rmp-serde = "1"
serde = { version = "1", features = ["derive"] }
serde_json = "1"
serde_yaml = "0.9"
subprocess = "0.2"
tokio = { version = "1", features = ["full"] }
url = { version = "2", features = ["serde"] }
