[package]
name = "pfwx"
version = "0.1.0"
edition = "2021"
publish = false

[dependencies]
tokio = { version = "=1.54.1", features = ["rt", "sync", "time", "macros"] }
futures-util = "=0.3.34"
backtrace = "=0.3.76"
thiserror = "=2.0.21"
pbni-rs = "=0.1.14"
windows = { version = "=0.59.0", features = ["Win32_Foundation", "Win32_Graphics_Gdi", "Win32_Security", "Win32_System_Threading", "Win32_System_LibraryLoader", "Win32_UI_WindowsAndMessaging"] }
