[package]
name = "twitch_link"
version = "0.1.0"
edition = "2021"
publish = false

[dependencies]
dirs = "*"
regex = "1"
reqwest = { version = "*", features = ["blocking"] }
serde_json = "1"
