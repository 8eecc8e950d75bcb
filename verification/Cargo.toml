[package]
name = "ttsync"
version = "0.1.0"
edition = "2021"
publish = false

[dependencies]
base64 = "*"
ed25519-dalek = "*"
qrcode = { version = "*", default-features = false }
serde = { version = "*", features = ["derive"] }
serde_json = "*"
toml = "*"
clap = { version = "*", features = ["derive"] }
chrono = "*"
dirs = "*"
rand = "*"
uuid = { version = "*", features = ["v4"] }
thiserror = "*"
crossterm = "*"
ratatui = "*"
comfy-table = "*"
tokio = { version = "*", features = ["full"] }
tokio-util = { version = "*", features = ["io"] }
futures-util = "*"
async-compression = { version = "*", features = ["tokio", "zstd"] }
reqwest = { version = "*", default-features = false, features = ["stream"] }
rcgen = "*"
tracing-subscriber = { version = "*", features = ["env-filter"] }
windows-sys = { version = "*", features = ["Win32_System_Console", "Win32_UI_WindowsAndMessaging", "Win32_Foundation"] }
