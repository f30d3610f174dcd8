[package]
name = "amv"
version = "0.1.0"
edition = "2021"
publish = false

[dependencies]
base64 = "=0.21.7"
eframe = { version = "=0.37.0", default-features = false, features = ["default_fonts", "glow", "persistence", "x11"] }
egui = "=0.37.0"
image = { version = "=0.25.10", default-features = false, features = ["png", "jpeg", "qoi"] }
pollster = "=1.0.1"
resvg = "=0.30.0"
rfd = { version = "=0.17.2", default-features = false, features = ["xdg-portal"] }
serde = { version = "=1.0.229", features = ["derive"] }
tiny-skia = "=0.8.4"
usvg = "=0.30.0"
wasm-bindgen = "=0.2.130"
wasm-bindgen-futures = "=0.4.80"
