[package]
name = "tauri-specta"
version = "0.1.0"
edition = "2021"
publish = false

[dependencies]
heck = "0.4"
specta = { version = "1.0", features = ["functions"] }
