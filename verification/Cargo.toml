[package]
name = "chart_player"
version = "0.1.26"
edition = "2021"
publish = false

[dependencies]
anyhow = "1"
cgmath = "0.18"
cpal = "0.15"
gtk4 = "*"
serde = { version = "1", features = ["derive"] }
serde_json = "1"
