[package]
name = "audio_player"
version = "0.1.0"
edition = "2021"
publish = false

[dependencies]
ratatui = "0.29"
crossterm = "0.28"
rand = "0.9"
symphonia = "0.5"
cpal = "0.15"
libpulse-binding = "2"
libpulse-simple-binding = "2"
serde = { version = "1", features = ["derive"] }
color-eyre = "0.6"
