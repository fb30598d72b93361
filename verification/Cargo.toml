[package]
name = "processmon"
version = "0.1.0"
edition = "2021"
publish = false

[dependencies]
anyhow = "*"
colored = "*"
notify = "*"
serde = { version = "*", features = ["derive"] }
toml = "*"
