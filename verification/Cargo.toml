[package]
name = "evtr"
version = "0.1.0"
edition = "2021"
publish = false

[dependencies]
crossterm = { version = "0.29", features = ["event-stream"] }
evdev = "0.13"
futures = "0.3"
fuzzy-matcher = "0.3"
ratatui = "0.29"
unicode-width = "0.2"
