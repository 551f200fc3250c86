[package]
name = "rust_raid"
version = "0.1.0"
edition = "2021"
publish = false

[dependencies]
anyhow = "1"
crossterm = "0.28"
ratatui = "0.29"
serde = { version = "1", features = ["derive"] }
tempfile = "3"
toml = "0.8"
tui-textarea = "0.7"
