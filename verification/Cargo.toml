[package]
name = "unifi_rs"
version = "0.1.0"
edition = "2021"
publish = false

[dependencies]
chrono = "*"
reqwest = { version = "*", default-features = false, features = ["rustls-tls"] }
serde_json = "*"
url = "*"
uuid = "*"
