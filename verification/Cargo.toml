[package]
name = "brewman"
version = "0.1.0"
edition = "2021"
publish = false

[dependencies]
crossterm = "0.29"
ratatui = "0.30"
serde = { version = "1", features = ["derive"] }
serde_json = "1"
