[package]
name = "bord_sidecar"
version = "0.1.0"
edition = "2021"
publish = false

[dependencies]
libc = "0.2"
log = "0.4"
tauri = { version = "2", default-features = false, features = ["wry"] }
tauri-plugin-process = { version = "2", default-features = false }
