[package]
name = "captcha_helper"
version = "0.1.0"
edition = "2021"
publish = false

[dependencies]
crossbeam = "0.8"
serde = { version = "1", features = ["derive"] }
serde_json = "1"
ureq = "2"
url = "2"

[dev-dependencies]
mockito = "1"
