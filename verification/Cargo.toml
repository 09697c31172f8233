[package]
name = "duck_client"
version = "0.1.0"
edition = "2021"

[dependencies]
serde_json = "1"
rand = "0.8"
