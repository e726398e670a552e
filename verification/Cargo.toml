[package]
name = "relais"
version = "0.1.0"
edition = "2021"
publish = false

[dependencies]
anyhow = "=1.0.104"
proc-macro2 = "=1.0.107"
quote = "=1.0.47"
serde = { version = "=1.0.229", features = ["derive"] }
syn = "=2.0.119"
tauri = { version = "=2.12.5", default-features = false, features = ["wry", "tray-icon"] }
toml = "=0.9.12"
url = "=2.5.8"
uuid = { version = "=1.29.0", features = ["v4"] }
webview2-com = "=0.39.1"
windows = { version = "=0.62.2", features = ["Win32_Foundation", "Win32_UI_Shell", "Win32_UI_WindowsAndMessaging"] }
