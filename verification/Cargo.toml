[package]
name = "muffin"
version = "0.1.0"
edition = "2021"
publish = false

[dependencies]
anyhow = "*"
crossterm = "*"
ratatui = "*"
serde = { version = "*", features = ["derive"] }
shellexpand = "*"
tokio = { version = "*", features = ["rt", "macros", "sync", "time"] }
toml = "*"
tui-textarea = "*"
