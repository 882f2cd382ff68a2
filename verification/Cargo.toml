[package]
name = "console_utils"
version = "0.1.0"
edition = "2021"
publish = false

[dependencies]
libc = "0.2"
windows-sys = { version = "0.59", features = ["Win32_Foundation", "Win32_System_Console", "Win32_UI_Input_KeyboardAndMouse"] }
