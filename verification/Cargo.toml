[package]
name = "siren_tunnel"
version = "0.1.0"
edition = "2021"
publish = false

[dependencies]
aes-gcm = "*"
md-5 = "*"
sha2 = "*"
base64 = "*"
tokio = { version = "*", features = ["io-util"] }
worker = "*"
uuid = "*"
getrandom = "*"
futures-util = "*"
wasm-bindgen-futures = "*"
serde_json = "*"
