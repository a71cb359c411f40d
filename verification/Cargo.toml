[package]
name = "alertify"
version = "0.1.0"
edition = "2021"
publish = false

[dependencies]
anyhow = "=1.0.104"
dirs = "=7.0.0"
env_logger = "=0.11.11"
futures-util = "=0.3.34"
humansize = "=2.1.3"
log = "=0.4.34"
notify-rust = "=4.18.2"
serde = { version = "=1.0.229", features = ["derive"] }
sysinfo = "=0.39.6"
tokio = { version = "=1.54.1", features = ["full"] }
tokio-stream = "=0.1.19"
tokio-udev = "=0.10.0"
toml = "=1.1.8"
zbus = "=5.19.0"
zbus_names = "=4.3.5"

[dev-dependencies]
regex = "=1.13.1"
