[package]
name = "drive_tui"
version = "0.1.0"
edition = "2021"
publish = false

[dependencies]
crossterm = "0.27"
futures = "0.3"
human_bytes = "0.4"
hyper = { version = "0.14", features = ["stream", "client", "http1"] }
ratatui = "0.26"
tokio = { version = "1", features = ["rt-multi-thread"] }
