[package]
name = "pses_bootstrap"
version = "0.1.0"
edition = "2021"
publish = false

[dependencies]
serde = { version = "=1.0.229", features = ["derive"] }
serde_json = "=1.0.151"
zip = { version = "=8.6.0", default-features = false, features = ["deflate"] }
lapce-plugin = "=0.1.0"
