[package]
name = "imagers_core"
version = "0.1.0"
edition = "2021"
publish = false

[dependencies]
dirs = "*"
serde = { version = "1", features = ["derive"] }
serde_json = "1"
tauri = { version = "2", default-features = false }
tauri-plugin-fs = { version = "2", default-features = false }
tauri-plugin-process = { version = "2", default-features = false }
tauri-plugin-updater = { version = "2", default-features = false }
