[package]
name = "aninfo"
version = "0.1.0"
edition = "2021"
publish = false

[dependencies]
chrono = "*"
cookie = "*"
time = "*"
sha256 = { version = "*", default-features = false }
serde = { version = "*", features = ["derive"] }
serde_json = "*"
