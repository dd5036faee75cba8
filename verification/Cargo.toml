[package]
name = "kdash"
version = "0.1.0"
edition = "2021"
publish = false

[dependencies]
anyhow = "=1.0.104"
backtrace = "=0.3.76"
chrono = { version = "=0.4.45", features = ["clock"] }
clap = { version = "=4.6.7", features = ["derive"] }
crossterm = "=0.29.0"
human-panic = "=1.2.3"
k8s-openapi = { version = "=0.20.0", features = ["v1_26"] }
log = "=0.4.34"
openssl-probe = "=0.1.6"
ratatui = "=0.30.2"
simplelog = "=0.12.2"
tokio = { version = "=1.54.1", features = ["full"] }
