[package]
name = "tino"
version = "0.1.0"
edition = "2021"
publish = false

[dependencies]
anyhow = "*"
chrono = "*"
color-eyre = "*"
crossterm = "*"
dirs = "*"
ratatui = "*"
serde = { version = "*", features = ["derive"] }
softpath = "*"
thiserror = "*"
toml = "*"
tui-input = "*"
