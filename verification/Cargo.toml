[package]
name = "cloud_storage"
version = "0.1.0"
edition = "2021"
publish = false

[dependencies]
openssl = "*"
chrono = "*"
reqwest = { version = "*", features = ["json"] }
serde = { version = "*", features = ["derive"] }
serde_json = "*"
bytes = "*"
