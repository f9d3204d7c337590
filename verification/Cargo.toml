[package]
name = "rusty_utils"
version = "0.1.0"
edition = "2021"
publish = false

[dependencies]
serde_json = { version = "1", features = ["preserve_order"] }
serde_yaml = { version = "0.9" }
toml = { version = "0.8" }
