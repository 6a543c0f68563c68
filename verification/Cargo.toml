[package]
name = "profile_commands"
version = "0.1.0"
edition = "2021"
publish = false

[dependencies]
base64 = "=0.22.1"
futures = "=0.3.34"
log = "=0.4.35"
percent-encoding = "=2.3.2"
serde_json = "=1.0.154"
serde_yaml = "=0.9.34"
tokio = { version = "=1.54.1", features = ["fs", "rt", "sync", "time"] }
url = "=2.5.8"
