[package]
name = "listik"
version = "0.1.0"
edition = "2021"
publish = false

[dependencies]
chrono = { version = "0.4", features = ["serde"] }
serde = { version = "1", features = ["derive"] }
uuid = { version = "1", features = ["v4"] }
tauri = { version = "2", default-features = false, features = ["tray-icon"] }
tauri-plugin-global-shortcut = "2"
tauri-plugin-process = "2"
