[package]
name = "campc"
version = "0.1.0"
edition = "2021"
publish = false

[dependencies]
eframe = { version = "0.29", default-features = false, features = ["default_fonts", "glow", "x11"] }
libc = "0.2"
log = "0.4"
serde = { version = "1", features = ["derive"] }
toml = "0.8"
