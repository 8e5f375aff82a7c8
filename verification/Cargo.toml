[package]
name = "arnelify_native"
version = "0.9.3"
edition = "2021"
publish = false

[dependencies]
serde_json = "1"
