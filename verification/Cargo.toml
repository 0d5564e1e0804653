[package]
name = "dollop"
version = "0.1.0"
edition = "2021"
publish = false

[dependencies]
argon2 = "*"
serde = { version = "*", features = ["derive"] }
serde_json = "*"
