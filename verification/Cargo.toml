[package]
name = "rog_core"
version = "0.1.0"
edition = "2021"
publish = false

[dependencies]
log = "=0.4.34"
nanoserde = "*"
serde = { version = "=1.0.229", features = ["derive"] }
toml = "=1.1.8"
udev = "=0.9.3"
