[package]
name = "mushak"
version = "0.1.0"
edition = "2021"
publish = false

[dependencies]
anyhow = "1"
serde = { version = "1", features = ["derive"] }
serde_json = "1"
toml = "*"
tracing = "0.1"
tracing-subscriber = { version = "0.3", features = ["env-filter", "fmt"] }
tracing-appender = "0.2"
crossbeam-channel = "0.5"
arc-swap = "1"
hidapi = "*"
tray-icon = "*"
windows = { version = "*", features = ["Win32_Foundation", "Win32_Security", "Win32_System_Threading", "Win32_UI_WindowsAndMessaging", "Win32_System_Diagnostics_ToolHelp", "Win32_UI_Input_KeyboardAndMouse", "Win32_System_LibraryLoader", "Win32_UI_Accessibility", "Win32_System_Registry", "Win32_Storage_Packaging_Appx", "ApplicationModel", "Foundation"] }
