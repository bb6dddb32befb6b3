[package]
name = "proactive_refresh"
version = "0.1.0"
edition = "2021"
publish = false

[dependencies]
curv-kzen = "=0.7.1"
serde_json = "1"
