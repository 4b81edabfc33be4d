[package]
name = "httpkit"
version = "0.1.0"
edition = "2021"
publish = false

[dependencies]
reqwest = { version = "*", default-features = false }
serde_json = "1"
serde = "1"
tokio = { version = "1", features = ["rt", "time"] }
async-trait = "0.1"
bytes = "1"
thiserror = "*"
