[package]
name = "gcal_widget"
version = "0.1.0"
edition = "2021"
publish = false

[dependencies]
tauri = { version = "2", default-features = false, features = ["tray-icon", "wry"] }
tokio = { version = "1", features = ["sync", "time"] }
url = "2"
