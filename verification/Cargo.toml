[package]
name = "rugby"
version = "0.1.0"
edition = "2021"
publish = false

[dependencies]
serde = { version = "1", features = ["derive"] }
serde_json = "1"
serde-big-array = "0.5"
config = { version = "0.14", default-features = false, features = ["toml"] }
