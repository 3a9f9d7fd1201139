[package]
name = "meteobar"
version = "0.1.0"
edition = "2021"
publish = false

[dependencies]
tauri = { version = "*", default-features = false, features = ["tray-icon"] }
tauri-plugin-positioner = { version = "*", features = ["tray-icon"] }
objc2 = "*"
objc2-app-kit = { version = "*", default-features = false }
