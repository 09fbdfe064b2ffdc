[package]
name = "ttd"
version = "0.1.0"
edition = "2021"
publish = false

[dependencies]
anyhow = "=1.0.104"
log = "=0.4.35"
env_logger = { version = "=0.11.11", default-features = false }
chrono = { version = "=0.4.45", default-features = false, features = ["clock"] }
serde_json = "=1.0.154"
tokio = { version = "=1.54.1", features = ["rt", "macros"] }
elasticsearch = { version = "=9.1.0-alpha.1", default-features = false, features = ["rustls-tls"] }
extfmt = "=0.2.0"
pelite = "=0.10.0"
dataview = "=1.1.0"
iced-x86 = "=1.22.0"
yara-x = { version = "=1.22.1", default-features = false }
