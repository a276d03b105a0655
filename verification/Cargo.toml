[package]
name = "filecopyer"
version = "0.1.0"
edition = "2021"
publish = false

[dependencies]
chrono = "0.4"
kamadak-exif = "0.6"
clap = { version = "4", features = ["derive"] }
walkdir = "2"
anyhow = "1"
eframe = { version = "0.32", default-features = false, features = ["default_fonts", "glow", "x11"] }
rfd = { version = "0.15", default-features = false, features = ["xdg-portal", "tokio"] }
