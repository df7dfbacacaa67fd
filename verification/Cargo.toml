[package]
name = "status_bar"
version = "0.1.0"
edition = "2021"
publish = false

[dependencies]
directories = "6"
serde = { version = "1", features = ["derive"] }
serde_json = "1"
sysinfo = "0.35"
thiserror = "2"
tracing = "0.1"
tracing-appender = "0.2"
tracing-subscriber = { version = "0.3", features = ["env-filter", "fmt"] }
windows-sys = { version = "0.59", features = ["Win32_Foundation", "Win32_UI_WindowsAndMessaging", "Win32_UI_Input_KeyboardAndMouse"] }
