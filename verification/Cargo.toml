[package]
name = "fund_transparency"
version = "0.1.0"
edition = "2021"
publish = false

[dependencies]
aes-gcm = "0.10"
argon2 = "0.5"
base64 = "0.22"
chrono = "0.4"
csv = "1"
hex = "0.4"
hmac = "0.12"
sha2 = "0.10"
rand = "0.8"
url = "2"
qrcode = { version = "0.14", default-features = false, features = ["svg"] }
uuid = { version = "1", features = ["v4"] }
serde = { version = "1", features = ["derive"] }
serde_json = "1"
parking_lot = "0.12"
axum = "0.8"
tokio = { version = "1", features = ["full"] }
tower-http = { version = "0.6", features = ["cors", "fs"] }
reqwest = { version = "0.12", default-features = false }
rusqlite = { version = "0.31", features = ["bundled"] }
