[package]
name = "tame_oauth"
version = "0.1.0"
edition = "2021"
publish = false

[dependencies]
http = "0.2"
serde_json = "1"
time = { version = "0.3", features = ["parsing"] }
twox-hash = "1"
