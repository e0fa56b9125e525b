[package]
name = "polterdesk"
version = "0.1.0"
edition = "2021"
publish = false

[dependencies]
anyhow = "=1.0.104"
serde = { version = "=1.0.229", features = ["derive"] }
serde_json = "=1.0.154"
raw-window-handle = "=0.6.2"
windows = { version = "=0.62.2", features = ["Win32_Foundation", "Win32_UI_WindowsAndMessaging", "Win32_UI_Shell", "Win32_System_Registry", "Win32_System_Threading", "Win32_System_Memory", "Win32_System_Diagnostics_Debug", "Win32_Graphics_Gdi", "Win32_Graphics_DirectWrite", "Win32_UI_Input_KeyboardAndMouse", "Win32_System_LibraryLoader"] }
