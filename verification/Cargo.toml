[package]
name = "oled_wallpaper"
version = "0.1.0"
edition = "2021"
publish = false

[dependencies]
anyhow = "1"
bytemuck = { version = "1", features = ["derive"] }
chrono = "0.4"
clap = { version = "4", features = ["derive"] }
dirs = "5"
glam = "0.25"
libc = "0.2"
pollster = "0.3"
raw-window-handle = "0.6"
serde = { version = "1", features = ["derive"] }
serde_json = "1"
sysinfo = "0.29"
thiserror = "1"
toml = "0.8"
tracing = "0.1"
tracing-subscriber = { version = "0.3", features = ["env-filter"] }
ureq = { version = "2", features = ["json"] }
x11rb = "0.13"
