[package]
name = "topgg"
version = "0.1.0"
edition = "2021"
publish = false

[dependencies]
axum = { version = "0.6", default-features = false }
serde = { version = "1", features = ["derive"] }
serde_json = "1"
