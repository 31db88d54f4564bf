[package]
name = "display_switch"
version = "0.1.0"
edition = "2021"
publish = false

[dependencies]
anyhow = "1"
clap = { version = "4", features = ["derive"] }
config = { version = "0.11", default-features = false, features = ["ini"] }
ddc = "0.2"
ddc-hi = "0.4"
ddc-winapi = "0.2"
dirs = "5"
log = "0.4"
rusb = "0.9"
serde = { version = "1", features = ["derive"] }
serde_json = "1"
shell-words = "1"
simplelog = "0.12"
toml = "0.5"
uinput = { version = "0.1.3", default-features = false }
winapi = { version = "0.3", features = ["winuser", "libloaderapi", "wincon"] }
