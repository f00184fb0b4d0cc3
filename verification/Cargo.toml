[package]
name = "ping_viewer_next"
version = "0.1.0"
edition = "2021"
publish = false

[dependencies]
bluerobotics-ping = "=0.3.6"
chrono = "=0.4.45"
foxglove = { version = "=0.29.0", default-features = false, features = ["derive"] }
mime_guess = "=2.0.5"
regex = "=1.13.1"
serde = { version = "=1.0.229", features = ["derive"] }
serde_json = "=1.0.151"
serde_json5 = "=0.2.1"
tokio = { version = "=1.53.2", features = ["full"] }
uuid = { version = "=1.27.0", features = ["v4"] }
