[package]
name = "frpc_supervisor"
version = "0.1.0"
edition = "2021"
publish = false

[dependencies]
serde = { version = "1", features = ["derive"] }
tauri = { version = "2", default-features = false, features = ["wry"] }
tauri-plugin-store = { version = "2", default-features = false }
window-vibrancy = { version = "*", default-features = false }
