[package]
name = "gradient_noise"
version = "0.1.0"
edition = "2021"
publish = false

[dependencies]
rand = "=0.9.5"
png = "=0.17.16"
eframe = { version = "0.32", default-features = false, features = ["glow", "default_fonts", "x11"] }
