[package]
name = "desktop_bootstrap"
version = "0.1.0"
edition = "2021"
publish = false

[dependencies]
dotenv = "0.15"
tauri = { version = "2", default-features = false }
