[package]
name = "ms_identity_auth"
version = "0.1.0"
edition = "2021"
publish = false

[dependencies]
bon = "3"
reqwest = { version = "0.12", default-features = false, features = ["rustls-tls"] }
secrecy = "0.10"
serde = { version = "1", features = ["derive"] }
serde_json = "1"
thiserror = "2"
time = "0.3"
url = "2"
uuid = { version = "1", features = ["serde"] }
