[package]
name = "croissant"
version = "0.1.0"
edition = "2021"
publish = false

[dependencies]
chrono = "0.4"
serde_json = "1"
sha2 = "0.10"
csv = "1"
