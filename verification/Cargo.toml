[package]
name = "console_adapter"
version = "0.1.0"
edition = "2021"
publish = false

[dependencies]
windows = { version = "=0.59.0", features = ["Win32_Foundation", "Win32_System_Console"] }
