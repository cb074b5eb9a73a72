[package]
name = "er_bullet_time"
version = "0.1.0"
edition = "2021"
publish = false

[dependencies]
windows-sys = { version = "*", features = ["Win32_Foundation", "Win32_System_LibraryLoader", "Win32_UI_Input_KeyboardAndMouse", "Win32_UI_Input_XboxController"] }
serde = { version = "1", features = ["derive"] }
toml = "*"
tracing = "*"
tracing-appender = "*"
tracing-subscriber = { version = "*", features = ["env-filter"] }
eldenring = "*"
fromsoftware-shared = "*"
