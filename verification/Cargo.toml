[package]
name = "gridix"
version = "0.1.0"
edition = "2021"
publish = false

[dependencies]
uuid = { version = "=1.29.0", features = ["v4"] }
egui = "0.33"
egui_extras = "0.33"
