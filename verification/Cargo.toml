[package]
name = "heliodesk"
version = "0.1.0"
edition = "2021"
publish = false

[dependencies]
log = { version = "=0.4.34", default-features = false }
tauri = { version = "=2.12.5", default-features = false, features = ["wry", "image-png"] }
