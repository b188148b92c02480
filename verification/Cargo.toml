[package]
name = "guild_sc"
version = "0.1.0"
edition = "2021"
publish = false

[dependencies]
multiversx-sc = "*"
multiversx-sc-scenario = "*"
serde = { version = "1", features = ["derive"] }
toml = "*"
