[package]
name = "sdkwork_payment"
version = "0.1.0"
edition = "2021"
publish = false

[dependencies]
sha2 = "0.10"
chrono = { version = "0.4", default-features = false, features = ["std", "clock"] }
urlencoding = "2"
base64 = "0.22"
rsa = { version = "0.9", features = ["sha2"] }
serde_json = "1"
serde = { version = "1", features = ["derive"] }
uuid = { version = "1", features = ["v4"] }
