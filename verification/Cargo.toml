[package]
name = "cryptstore"
version = "0.1.0"
edition = "2021"
publish = false

[dependencies]
aes-gcm-siv = "0.11"
getrandom = "0.2"
serde = { version = "1", features = ["derive"] }
serde_cbor = "0.11"
async-channel = "*"
