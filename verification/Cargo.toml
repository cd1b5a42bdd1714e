[package]
name = "streamline"
version = "0.1.0"
edition = "2021"
publish = false

[dependencies]
indicatif = "0.17"
once_cell = "1"
serde = { version = "1", features = ["derive"] }
serde_json = "1"
toml = "0.8"
