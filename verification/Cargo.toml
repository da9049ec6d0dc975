[package]
name = "goobert"
version = "0.1.0"
edition = "2021"
publish = false

[dependencies]
rand = "=0.8.8"
chrono = "=0.4.45"
anyhow = "=1.0.104"
log = "=0.4.34"
env_logger = "=0.11.11"
walkdir = "=2.5.0"
serde = { version = "=1.0.229", features = ["derive"] }
toml = "=0.8.23"
directories = "=5.0.1"
dirs = "=5.0.1"
eframe = { version = "=0.36.2", default-features = false, features = ["glow", "x11", "default_fonts"] }
egui = "=0.36.2"
glow = "=0.17.0"
libmpv2 = "=6.0.0"
libloading = "=0.8.9"
rfd = "=0.17.2"
