[package]
name = "keycast"
version = "0.1.0"
edition = "2021"
publish = false

[dependencies]
eframe = { version = "0.33", default-features = false, features = ["glow", "x11", "default_fonts"] }
parking_lot = "0.12"
rdev = "0.5"
