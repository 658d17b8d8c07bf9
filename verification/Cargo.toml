[package]
name = "sms_otp"
version = "0.1.0"
edition = "2021"
publish = false

[dependencies]
url = "=2.5.8"
serde = { version = "=1.0.229", features = ["derive"] }
serde_json = "=1.0.151"
once_cell = "=1.21.4"
reqwest = { version = "=0.13.5", default-features = false, features = ["blocking", "query"] }
