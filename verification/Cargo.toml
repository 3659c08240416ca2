[package]
name = "mynacard"
version = "0.1.0"
edition = "2021"
publish = false

[dependencies]
pcsc = "2"
libloading = "0.8"
serde = { version = "1", features = ["derive"] }
tauri = { version = "2", default-features = false }
