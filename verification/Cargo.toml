[package]
name = "bac_bot"
version = "0.1.0"
edition = "2021"
publish = false

[dependencies]
base64 = "0.13"
ratelimit = "*"
serde = { version = "1", features = ["derive"] }
serde_json = "1"
ureq = "2"
