[package]
name = "ratablet"
version = "0.1.0"
edition = "2021"
publish = false

[dependencies]
getrandom = "=0.3.4"
sys-locale = "=0.3.2"
eframe = { version = "=0.36.2", default-features = false, features = ["glow", "wayland", "x11", "default_fonts", "persistence"] }
egui-system-fonts = "=0.36.0"
keyring = { version = "=3.6.3", features = ["apple-native", "windows-native", "sync-secret-service", "vendored"] }
ksni = { version = "=0.3.7", features = ["blocking"] }
libc = "=0.2.191"
raw-window-handle = "=0.6.2"
wayland-client = "=0.31.15"
wayland-protocols-plasma = { version = "=0.3.12", features = ["client"] }
windows-sys = { version = "=0.61.2", features = ["Win32_Foundation", "Win32_UI_Controls", "Win32_UI_Input_Pointer", "Win32_UI_WindowsAndMessaging"] }
winit = "=0.30.13"
