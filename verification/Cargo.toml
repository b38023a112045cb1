[package]
name = "vnsd"
version = "0.1.0"
edition = "2021"
publish = false

[dependencies]
tokio = { version = "*", features = ["full"] }
log = "*"
anyhow = "*"
serde = { version = "*", features = ["derive"] }
serde_json = "*"
