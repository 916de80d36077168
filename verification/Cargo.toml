[package]
name = "auth_response"
version = "0.1.0"
edition = "2021"
publish = false

[dependencies]
reqwest = { version = "*", default-features = false }
url = "*"
serde = { version = "*", features = ["derive"] }
