[package]
name = "clip_relay"
version = "0.1.0"
edition = "2021"
publish = false

[dependencies]
serde_json = "1"
window-vibrancy = "0.6"

[dependencies.windows-sys]
version = "0.52"
features = ["Win32_Foundation", "Win32_UI_WindowsAndMessaging", "Win32_UI_Input_KeyboardAndMouse", "Win32_System_DataExchange", "Win32_System_Memory", "Win32_System_Threading"]
