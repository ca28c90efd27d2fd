[package]
name = "ondo"
version = "0.1.0"
edition = "2021"
publish = false

[dependencies]
dirs = "*"
once_cell = "1"
sentry = { version = "*", default-features = false }
serde = { version = "1", features = ["derive"] }
serde_json = "1"
tokio = { version = "1", features = ["rt"] }
windows = { version = "*", features = ["Win32_Foundation", "Win32_Storage_FileSystem", "Win32_System_Pipes", "Win32_UI_Shell", "Win32_UI_WindowsAndMessaging"] }
wmi = "*"
