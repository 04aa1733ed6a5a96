[package]
name = "cline_xray"
version = "0.1.0"
edition = "2021"
publish = false

[dependencies]
chrono = "=0.4.45"
serde = { version = "=1.0.229", features = ["derive"] }
serde_json = "=1.0.154"
log = "=0.4.35"
toml = "=0.8.23"
dirs = "=5.0.1"
base64 = "0.22"
uuid = { version = "1", features = ["v4"] }
rand = "0.8"
hex = "0.4"
