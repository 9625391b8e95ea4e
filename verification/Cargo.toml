[package]
name = "native_windows_gui"
version = "0.1.0"
edition = "2021"
publish = false

[dependencies]
winapi = { version = "=0.3.9", features = ["winuser", "commctrl", "minwinbase", "minwindef", "windef", "basetsd", "wingdi", "libloaderapi"] }
