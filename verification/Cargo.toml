[package]
name = "clash_tiny"
version = "0.1.0"
edition = "2021"
publish = false

[dependencies]
dirs = "*"
serde = { version = "1", features = ["derive"] }
serde_json = "1"
serde_yaml = "0.9"
tempfile = "3"
open = "*"
reqwest = { version = "0.12", default-features = false, features = ["blocking", "json", "rustls-tls"] }
