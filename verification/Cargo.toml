[package]
name = "cinema"
version = "0.1.0"
edition = "2021"
publish = false

[dependencies]
bcrypt = "*"
validator = "*"
rand = "*"
jsonwebtoken = "*"
serde = { version = "*", features = ["derive"] }
serde_json = "*"
