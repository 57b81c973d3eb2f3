[package]
name = "smelt"
version = "0.1.0"
edition = "2021"
publish = false

[dependencies]
shell-words = "1"
serde_json = "1"
serde = { version = "1", features = ["derive"] }
qrcode = "0.14"
image = { version = "0.25", default-features = false, features = ["png"] }
url = "2"
chrono = "0.4"
dirs = "6"
uuid = { version = "1", features = ["v4"] }
