[package]
name = "omnispeed"
version = "0.1.0"
edition = "2021"
publish = false

[dependencies]
serde = { version = "1", features = ["derive"] }
serde_json = "1"
thiserror = "2"
ureq = { version = "2", default-features = false }
tungstenite = "0.26"
sysinfo = "0.35"
tokio = { version = "1", features = ["net", "io-util", "sync", "time", "macros", "rt"] }
winreg = "0.55"
windows = { version = "0.61", features = ["Win32_Foundation", "Win32_System_Threading", "Win32_UI_Accessibility", "Win32_UI_Input_KeyboardAndMouse", "Win32_UI_WindowsAndMessaging"] }
