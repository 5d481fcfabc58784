[package]
name = "passkey_core"
version = "0.1.0"
edition = "2021"
publish = false

[dependencies]
uuid = { version = "*", features = ["v4"] }
validator = "*"
webauthn-rs = "*"
url = "*"
serde_json = "*"
serde = { version = "*", features = ["derive"] }
