[package]
name = "flow8_midi"
version = "0.1.0"
edition = "2021"
publish = false

[dependencies]
midir = "0.10"
tokio = { version = "1", features = ["rt-multi-thread", "time", "macros"] }
tokio-stream = "0.1"
uuid = "1"
chrono = "0.4"
hostname = "0.4"
serde = { version = "1", features = ["derive"] }
toml = "0.8"
directories-next = "2"
windows-sys = { version = "0.59", features = ["Win32_Foundation", "Win32_System_LibraryLoader", "Win32_UI_Shell", "Win32_UI_WindowsAndMessaging"] }
