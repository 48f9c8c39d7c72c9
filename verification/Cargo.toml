[package]
name = "shutters"
version = "0.1.0"
edition = "2021"
publish = false

[dependencies]
chrono = { version = "=0.4.45", default-features = false, features = ["std", "clock"] }
chrono-tz = "=0.10.4"
sunrise = "=3.0.0"
log = "=0.4.34"
env_logger = "=0.11.11"
tokio = { version = "=1.54.1", features = ["rt-multi-thread", "macros", "time", "sync", "signal"] }
rppal = "=0.22.1"
libsystemd = "=0.7.2"
openweather_sdk = "=0.1.8"
zbus = { version = "=6.1.0", default-features = false, features = ["tokio", "service"] }
