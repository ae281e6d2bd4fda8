[package]
name = "procmux"
version = "0.1.0"
edition = "2021"
publish = false

[dependencies]
ratatui = "0.29"
crossterm = { version = "0.28", features = ["event-stream"] }
tui-term = "0.2"
anyhow = "1"
bytes = "1"
tokio = { version = "1", features = ["full"] }
futures = "0.3"
portable-pty = "0.8"
vt100 = "0.15"
