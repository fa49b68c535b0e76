[package]
name = "auru_pm_ui"
version = "0.1.0"
edition = "2021"
publish = false

[dependencies]
async-channel = "2"
serde = { version = "1", features = ["derive"] }
serde_json = "1"
tokio = { version = "1", features = ["rt", "rt-multi-thread"] }
