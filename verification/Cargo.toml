[package]
name = "gbaemu"
version = "0.1.0"
edition = "2021"
publish = false

[dependencies]
eframe = { version = "0.27", default-features = false, features = ["default_fonts", "glow", "persistence"] }
egui = "0.27"
futures = "0.3"
rfd = "0.14"
serde = { version = "1", features = ["derive"] }
wasm-bindgen-futures = "0.4"
