[package]
name = "sast_readium"
version = "0.1.0"
edition = "2021"
publish = false

[dependencies]
serde = { version = "1", features = ["derive"] }
serde_json = "1"
uuid = { version = "1", features = ["v4"] }
chrono = "0.4"
rmcp = { version = "*", features = ["client", "transport-child-process"] }
tokio = { version = "1", features = ["full"] }
dirs = "*"
keyring = "*"
reqwest = { version = "*", default-features = false, features = ["json"] }
