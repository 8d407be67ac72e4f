[package]
name = "cloak_browser"
version = "0.1.0"
edition = "2021"
publish = false

[dependencies]
anyhow = "=1.0.104"
directories = "=5.0.1"
reqwest = { version = "=0.12.28", default-features = false, features = ["blocking", "default-tls"] }
rfd = "=0.15.4"
serde_json = { version = "=1.0.154", features = ["float_roundtrip"] }
tao = "0.30"
