[package]
name = "kbot"
version = "0.1.0"
edition = "2021"
publish = false

[dependencies]
rand = "=0.8.8"
serde = { version = "=1.0.229", features = ["derive"] }
serde_json = "=1.0.154"
chrono = "=0.4.45"
crossbeam-channel = "=0.5.17"
lazy_static = "=1.5.1"
winapi = { version = "=0.3.9", features = ["winuser", "windef", "minwindef", "wingdi"] }
reqwest = { version = "=0.12.28", default-features = false, features = ["blocking", "json", "rustls-tls"] }
rumqttc = { version = "=0.24.0", default-features = false }
serialport = { version = "=4.10.1", default-features = false }
image = { version = "0.25", default-features = false, features = ["png"] }
imageproc = { version = "0.25", default-features = false }
