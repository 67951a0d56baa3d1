[package]
name = "clash_verge"
version = "0.1.0"
edition = "2021"
publish = false

[dependencies]
anyhow = "1"
arc-swap = "1"
backon = "1"
compact_str = "0.9"
parking_lot = "0.12"
scopeguard = "1"
serde = { version = "1", features = ["derive"] }
serde_yaml_ng = "0.10"
smartstring = "1"
tokio = { version = "1", features = ["macros", "rt", "sync", "time"] }
windows-sys = { version = "0.61", features = ["Win32_Foundation", "Win32_Security", "Win32_System_JobObjects", "Win32_System_Services", "Win32_System_Threading"] }
