[package]
name = "openidconnect"
version = "0.1.0"
edition = "2021"
publish = false

[dependencies]
base64 = "0.22"
chrono = { version = "0.4", default-features = false, features = ["clock"] }
oauth2 = { version = "4", default-features = false }
rand = "0.8"
ring = "0.17"
serde = { version = "1", features = ["derive"] }
serde_json = "1"
url = "2"
