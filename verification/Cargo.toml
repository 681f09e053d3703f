[package]
name = "app_bootstrap"
version = "0.1.0"
edition = "2021"
publish = false

[dependencies]
log = "=0.4.34"
tauri = { version = "2", default-features = false }
tauri-plugin-log = { version = "2", default-features = false }
