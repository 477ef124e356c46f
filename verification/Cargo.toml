[package]
name = "achat"
version = "0.1.0"
edition = "2021"
publish = false

[dependencies]
tokio = { version = "*", features = ["full"] }
tokio-util = { version = "*", features = ["full"] }
anyhow = "*"
clap = { version = "*", features = ["derive"] }
console-subscriber = "*"
bytes = "*"
futures = "*"

[dev-dependencies]
serde_json = "*"
