[package]
name = "egui_elm"
version = "0.1.0"
edition = "2021"
publish = false

[dependencies]
futures = "0.3.34"
futures-timer = "3.0.4"
tokio = { version = "*", default-features = false, features = ["rt-multi-thread"] }
eframe = { version = "0.36.2", default-features = false, features = ["glow", "x11", "default_fonts"] }
