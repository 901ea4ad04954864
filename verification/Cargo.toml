[package]
name = "mouse_coords"
version = "0.3.0"
edition = "2021"
publish = false

[dependencies]
zbus = { version = "5", default-features = false, features = ["tokio"] }
tokio = { version = "1", features = ["rt", "time", "sync"] }
tempfile = "3"
x11rb = "0.13"
core-graphics = "0.24"
windows = { version = "0.58", features = ["Win32_Foundation", "Win32_UI_WindowsAndMessaging"] }
