[package]
name = "mxbmm"
version = "0.1.0"
edition = "2021"
publish = false

[dependencies]
dirs = "*"
eframe = { version = "*", default-features = false, features = ["default_fonts", "glow", "x11"] }
notify = "*"
walkdir = "2"
zip = { version = "*", default-features = false, features = ["deflate"] }
