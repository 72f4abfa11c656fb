[package]
name = "winmgr"
version = "0.1.0"
edition = "2021"
publish = false

[dependencies]
clap = { version = "4", features = ["derive"] }
directories = "*"
nohash-hasher = "0.2"
serde = { version = "1", features = ["derive"] }
serde_json = "1"
windows = { version = "*", features = ["Win32_Foundation", "Win32_Graphics_Gdi", "Win32_System_DataExchange", "Win32_UI_Input_KeyboardAndMouse", "Win32_UI_WindowsAndMessaging"] }
winit = { version = "*", features = ["serde"] }
winreg = "*"
