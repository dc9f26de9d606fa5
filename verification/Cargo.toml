[package]
name = "frontbridge"
version = "0.1.0"
edition = "2021"
publish = false

[dependencies]
serde = { version = "*", features = ["derive"] }
serde_json = "*"
tokio = { version = "*", default-features = false, features = ["sync"] }
once_cell = "*"
anyhow = "*"
log = "*"
