[package]
name = "native_shortcut"
version = "0.1.0"
edition = "2021"
publish = false

[dependencies]
core-graphics = "0.24"
core-foundation = "0.10"
objc = "0.2"
block = "0.1"
log = "0.4"
tauri = { version = "2", default-features = false }
