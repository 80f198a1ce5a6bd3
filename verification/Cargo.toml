[package]
name = "feedbin"
version = "0.1.0"
edition = "2021"
publish = false

[dependencies]
curl = "0.4"
serde_json = "1.0"
