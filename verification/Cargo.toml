[package]
name = "gui"
version = "0.1.0"
edition = "2021"
publish = false

[dependencies]
rhai = "*"
parking_lot = "*"
notify = "*"
eframe = { version = "*", default-features = false, features = ["glow", "x11", "default_fonts"] }
