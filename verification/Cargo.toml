[package]
name = "camellia"
version = "0.1.0"
edition = "2021"
publish = false

[dependencies]
config = "=0.15.27"
serde = "*"
