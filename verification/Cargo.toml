[package]
name = "jukebox"
version = "0.1.0"
edition = "2021"
publish = false

[dependencies]
clap = { version = "4", features = ["derive"] }
crossterm = "0.26"
infer = "*"
mp3-duration = "0.1"
rodio = "0.17"
