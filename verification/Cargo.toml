[package]
name = "eefoctui"
version = "0.1.0"
edition = "2021"
publish = false

[dependencies]
ansi-parser = "0.9"
anyhow = "1"
bollard = "0.19"
crossterm = "0.28"
portable-pty = "0.9"
ratatui = "0.29"
serde = { version = "1", features = ["derive"] }
sysinfo = "0.35"
tokio = { version = "1", features = ["full"] }
