[package]
name = "tarner_monitor"
version = "0.1.0"
edition = "2021"
publish = false

[dependencies]
csv = "=1.4.0"
dirs = "=5.0.1"
log = "=0.4.34"
serde = { version = "=1.0.229", features = ["derive"] }
simplelog = "=0.12.2"
sysinfo = { version = "0.36", default-features = false, features = ["system"] }
tokio = { version = "=1.54.1", features = ["time"] }
toml = "=0.8.23"
