[package]
name = "groove-tui"
version = "0.1.0"
edition = "2021"
publish = false

[dependencies]
rust-music-theory = "*"
serde = { version = "1", features = ["derive"] }
serde_json = "1"
anyhow = "1"
crossterm = "0.28"
ratatui = "0.29"
cpal = "0.15"
crossbeam-channel = "0.5"
rodio = "0.19"
pitch-detection = "*"
