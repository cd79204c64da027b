[package]
name = "colorose"
version = "0.1.0"
edition = "2021"
publish = false

[dependencies]
image = { version = "=0.24.9", default-features = false, features = ["png"] }
egui = "=0.32.3"
eframe = { version = "=0.32.3", default-features = false, features = ["glow", "default_fonts", "x11"] }
raw-window-handle = "=0.6.2"
tray-item = "0.10"
windows = { version = "0.61", features = ["Win32_Foundation", "Win32_Graphics_Dwm", "Win32_UI_HiDpi", "Win32_UI_WindowsAndMessaging"] }
