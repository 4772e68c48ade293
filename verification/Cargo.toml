[package]
name = "tunnels"
version = "0.1.0"
edition = "2021"
publish = false

[dependencies]
lru = "*"
serde = { version = "1", features = ["derive"] }
serde_json = "1"
bytes = "1"
tokio-util = { version = "0.7", features = ["codec"] }
thiserror = "*"
