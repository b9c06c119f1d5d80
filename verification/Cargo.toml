[package]
name = "sentinel"
version = "0.1.0"
edition = "2021"
publish = false

[dependencies]
chrono = "*"
tokio = { version = "*", features = ["full"] }
slog = "*"
sysinfo = "*"
device_query = "*"
