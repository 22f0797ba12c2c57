[package]
name = "aichar"
version = "1.0.5"
edition = "2021"
publish = false

[dependencies]
base64 = "0.22"
chrono = "0.4"
png = "0.17"
serde_json = "1"
serde_yaml = "0.9"
