[package]
name = "passive_tree"
version = "0.1.0"
edition = "2021"
publish = false

[dependencies]
eframe = { version = "*", default-features = false, features = ["glow", "x11"] }
egui = "*"
egui_commonmark = "*"
egui_extras = { version = "*", features = ["image", "syntect"] }
serde = { version = "*", features = ["derive"] }
serde_json = "*"
