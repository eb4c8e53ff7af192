[package]
name = "solar_screen_brightness"
version = "0.1.0"
edition = "2021"
publish = false

[dependencies]
anyhow = "1"
egui-winit = { version = "0.27", default-features = false, features = ["x11"] }
human-repr = "1"
log = "0.4"
sunrise-sunset-calculator = "1"
windows = { version = "0.57", features = ["Win32_Foundation", "Win32_Graphics_Gdi", "Win32_System_LibraryLoader", "Win32_System_RemoteDesktop", "Win32_UI_Accessibility", "Win32_UI_WindowsAndMessaging"] }
