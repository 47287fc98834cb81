[package]
name = "windows_dpi"
version = "0.3.0"
edition = "2021"
publish = false

[dependencies]
cocoa = "*"
lazy_static = "1"
libc = "0.2"
libloading = "*"
objc = "0.2"
winapi = { version = "0.3", features = ["minwindef", "windef", "winerror", "wingdi", "winuser"] }
