[package]
name = "grapher"
version = "0.1.0"
edition = "2021"
publish = false

[dependencies]
exmex = { version = "=0.21.0", features = ["value"] }
eframe = { version = "*", default-features = false, features = ["glow", "x11", "default_fonts"] }
