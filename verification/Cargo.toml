[package]
name = "casparian_tui"
version = "0.1.0"
edition = "2021"
publish = false

[dependencies]
regex = "=1.13.1"
uuid = "=1.29.0"
serde = { version = "=1.0.229", features = ["derive"] }
serde_json = "=1.0.154"
crossterm = "=0.28.1"
ratatui = "=0.29.0"
chrono = "=0.4.45"
anyhow = "=1.0.104"
blake3 = { version = "1", features = ["pure"] }
clap = { version = "4", features = ["derive"] }
tempfile = "3"
