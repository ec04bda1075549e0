[package]
name = "oobe_wizard"
version = "0.1.0"
edition = "2021"
publish = false

[dependencies]
eframe = { version = "=0.22.0", default-features = false, features = ["glow"] }
egui = { version = "=0.22.0", default-features = false }
egui_extras = { version = "=0.22.0", default-features = false, features = ["image"] }
