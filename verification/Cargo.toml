[package]
name = "imgup"
version = "0.1.0"
edition = "2021"
publish = false

[dependencies]
base64 = "*"
md5 = "*"
chrono = "*"
rand = "*"
ureq = "*"
serde = { version = "*", features = ["derive"] }
serde_json = "*"
clipboard-anywhere = "*"
