[package]
name = "gwl"
version = "0.1.0"
edition = "2021"
publish = false

[dependencies]
raw-window-handle = "=0.5.2"
safex = { version = "=0.0.5", features = ["xlib"] }
winapi = { version = "=0.3.9", features = ["winuser", "libloaderapi", "dwmapi", "uxtheme", "windef", "minwindef", "ntdef"] }
