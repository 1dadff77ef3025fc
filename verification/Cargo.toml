[package]
name = "keep_awake"
version = "0.1.0"
edition = "2021"
publish = false

[dependencies]
serde = { version = "1", features = ["derive"] }
serde_json = "1"
dirs = "*"
enigo = "*"
tray-icon = "*"
zbus = "*"
core-foundation = "*"
windows-sys = { version = "*", features = ["Win32_UI_Shell", "Win32_UI_WindowsAndMessaging", "Win32_Foundation"] }
