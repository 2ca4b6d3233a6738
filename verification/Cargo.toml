[package]
name = "tood"
version = "0.1.0"
edition = "2021"
publish = false

[dependencies]
anyhow = "=1.0.104"
chrono = "=0.4.45"
confy = "=2.0.0"
crossterm = "=0.29.0"
edit = "=0.1.5"
fuzzy-matcher = "=0.3.7"
kanal = "=0.1.1"
ratatui = "=0.30.2"
serde = { version = "=1.0.229", features = ["derive"] }
tui-input = "=0.15.5"
unicode-width = "=0.2.2"
