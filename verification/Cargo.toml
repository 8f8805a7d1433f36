[package]
name = "prfitem"
version = "0.1.0"
edition = "2021"
publish = false

[dependencies]
aes-gcm = "0.10"
anyhow = "1"
base64 = "0.22"
chrono = "0.4"
hkdf = "0.12"
percent-encoding = "2"
reqwest = { version = "0.12", default-features = false }
serde = { version = "1", features = ["derive"] }
serde_json = "1"
serde_yaml_ng = "0.10"
sha2 = "0.10"
tokio = { version = "1", features = ["fs", "time"] }
