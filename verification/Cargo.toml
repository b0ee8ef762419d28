[package]
name = "avatar_cache"
version = "0.1.0"
edition = "2021"
publish = false

[dependencies]
bytes = "1"
dotenvy = "0.15"
reqwest = { version = "0.12", features = ["json"] }
rocket = "0.5"
serde_json = "1"
