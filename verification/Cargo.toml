[package]
name = "tauri-plugin-mcp"
version = "0.1.0"
edition = "2021"
publish = false

[dependencies]
base64 = "0.22"
serde = { version = "1", features = ["derive"] }
serde_json = "1"
tauri = { version = "2", default-features = false, features = ["unstable"] }
tokio = { version = "1", default-features = false, features = ["time"] }
