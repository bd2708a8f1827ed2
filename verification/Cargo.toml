[package]
name = "shutdown_handler"
version = "0.1.0"
edition = "2021"
publish = false

[dependencies]
napi = { version = "=2.16.17", features = ["napi4"] }
napi-derive = "=2.16.13"
thiserror = "=1.0.69"
xdg = "=2.5.2"
windows = { version = "0.52", features = ["Win32_Foundation", "Win32_System_Shutdown", "Win32_System_Threading", "Win32_UI_WindowsAndMessaging"] }
