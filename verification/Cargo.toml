[package]
name = "frost_participant"
version = "0.1.0"
edition = "2021"
publish = false

[dependencies]
frost-core = { version = "=3.0.0", features = ["serde"] }
frost-ed25519 = { version = "=3.0.0", features = ["serde"] }
frost-rerandomized = { version = "=3.0.0", features = ["serde"] }
rand = "=0.8.8"
reddsa = { version = "=0.5.2", features = ["frost", "serde"] }
serde_json = "=1.0.154"
thiserror = "=1.0.69"
