[package]
name = "wankle-client"
version = "0.1.0"
edition = "2021"
publish = false

[dependencies]
serde = { version = "=1.0.229", features = ["derive"] }
serde_json = "=1.0.154"
dirs = "=7.0.0"
wry = "=0.57.1"
tao = "=0.37.2"
global-hotkey = "=0.9.0"
webview2-com = "=0.39.1"
windows = { version = "=0.62.2", features = ["Win32_Foundation", "Win32_System_Diagnostics_ToolHelp", "Win32_System_Threading"] }
windows-core = "=0.62.2"
