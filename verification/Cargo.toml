[package]
name = "orbit"
version = "0.1.0"
edition = "2021"
publish = false

[dependencies]
quick-xml = "=0.31.0"
image = "=0.24.9"
mlua = { version = "=0.9.9", features = ["lua54", "vendored"] }
egui = "=0.28.1"
eframe = { version = "=0.28.1", default-features = false, features = ["glow"] }
rfd = { version = "=0.14.1", default-features = false, features = ["xdg-portal", "tokio"] }
