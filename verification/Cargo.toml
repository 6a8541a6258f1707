[package]
name = "neaponoise"
version = "3.0.0"
edition = "2021"
publish = false

[dependencies]
serde = { version = "1", features = ["derive"] }
eframe = { version = "*", default-features = false, features = ["default_fonts", "glow", "x11", "persistence"] }
cpal = "*"
