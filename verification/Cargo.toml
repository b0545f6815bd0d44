[package]
name = "positioner"
version = "0.1.0"
edition = "2021"
publish = false

[dependencies]
serde = { version = "=1.0.229", features = ["derive"] }
serde_repr = "=0.1.21"
tauri = { version = "2", default-features = false }
