[package]
name = "gerber_viewer"
version = "0.1.0"
edition = "2021"
publish = false

[dependencies]
gerber-types = "*"
nalgebra = "*"
lyon = "*"
log = "*"
egui = { version = "*", default-features = false }
