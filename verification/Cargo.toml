[package]
name = "bankid"
version = "0.1.0"
edition = "2021"
publish = false

[dependencies]
uuid = "=1.27.0"
reqwest = { version = "=0.13.5", features = ["json", "native-tls"] }
serde_json = "=1.0.151"
