[package]
name = "api_helper"
version = "0.1.0"
edition = "2021"
publish = false

[dependencies]
reqwest = "=0.11.27"
serde = { version = "1", features = ["derive"] }
