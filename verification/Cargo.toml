[package]
name = "arch_wizard"
version = "0.1.0"
edition = "2021"
publish = false

[dependencies]
crossterm = "0.26"
ratatui = "0.22"
serde = { version = "1", features = ["derive"] }
toml = "0.7"
