[package]
name = "axum-jrpc"
version = "0.1.0"
edition = "2021"
publish = false

[dependencies]
anyhow = "1"
axum = { version = "0.8", default-features = false, features = ["json"] }
mime = "0.3"
serde = "1"
serde_json = { version = "1", features = ["preserve_order"] }
