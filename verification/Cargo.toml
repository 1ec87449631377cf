[package]
name = "verostat"
version = "0.1.0"
edition = "2021"
publish = false

[dependencies]
muda = "0.15"
parking_lot = "0.12"
serde = { version = "1", features = ["derive"] }
sysinfo = "0.33"
toml = "0.8"
tray-icon = "0.19"
windows = { version = "0.58", features = ["Win32_Foundation", "Win32_Graphics_Gdi", "Win32_Graphics_Dwm", "Win32_System_Com", "Win32_System_LibraryLoader", "Win32_System_Registry", "Win32_UI_WindowsAndMessaging", "Win32_UI_Input_KeyboardAndMouse"] }
