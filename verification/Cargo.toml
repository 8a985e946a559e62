[package]
name = "desktop_control"
version = "0.1.0"
edition = "2021"
publish = false

[dependencies]
base64 = "=0.22.1"
enigo = { version = "=0.3.0", default-features = false, features = ["x11rb"] }
image = { version = "=0.24.9", default-features = false, features = ["jpeg"] }
serde = { version = "=1.0.229", features = ["derive"] }
