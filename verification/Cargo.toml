[package]
name = "glazewm_core"
version = "0.1.0"
edition = "2021"
publish = false

[dependencies]
anyhow = "1"
tracing = "0.1"
tokio = { version = "1", features = ["sync", "rt", "macros"] }
windows = { version = "0.52", features = ["Win32_Foundation", "Win32_System_RemoteDesktop", "Win32_UI_WindowsAndMessaging"] }
objc2 = "0.6"
objc2-app-kit = "0.3"
