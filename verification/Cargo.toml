[package]
name = "reqwew"
version = "0.1.0"
edition = "2021"
publish = false

[dependencies]
reqwest = { version = "*", default-features = false, features = ["blocking", "json"] }
serde = "*"
serde_json = "*"
tokio = { version = "*", features = ["time"] }
tracing = "*"
