[package]
name = "host_bridge"
version = "0.1.0"
edition = "2021"
publish = false

[dependencies]
mac_address = "1"
tauri = { version = "2", default-features = false }
windows-sys = { version = "0.59", features = ["Win32_UI_Shell"] }
