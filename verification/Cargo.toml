[package]
name = "audio_tinkertoy"
version = "0.1.0"
edition = "2021"
publish = false

[dependencies]
eframe = { version = "=0.37.0", default-features = false, features = ["default_fonts", "glow", "x11"] }
egui = { version = "=0.37.0", default-features = false, features = ["default_fonts"] }
env_logger = { version = "=0.11.11", default-features = false }
rodio = { version = "=0.23.0", default-features = false, features = ["playback"] }
