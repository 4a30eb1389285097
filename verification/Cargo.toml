[package]
name = "sidecar_supervisor"
version = "0.1.0"
edition = "2021"
publish = false

[dependencies]
serde_json = "=1.0.154"
serde = { version = "=1.0.229", features = ["derive"] }
reqwest = { version = "=0.12.28", default-features = false, features = ["json"] }
tokio = { version = "=1.54.1", features = ["time", "rt", "sync"] }
dotenv = "=0.15.0"
base64 = "=0.22.1"
window-vibrancy = "*"
objc2 = "*"
objc2-app-kit = "*"
objc2-foundation = "*"
block2 = "*"
