[package]
name = "teloxide"
version = "0.1.0"
edition = "2021"
publish = false

[dependencies]
futures = "*"
tokio = { version = "*", features = ["sync"] }
log = "*"
serde = { version = "*", features = ["derive"] }
serde_json = "*"
async-trait = "*"
