[package]
name = "gamescope_portal"
version = "0.1.0"
edition = "2021"
publish = false

[dependencies]
url = "=2.5.8"
ashpd = { version = "=0.13.13", default-features = false, features = ["backend", "tokio", "screencast", "screenshot"] }
async-trait = "=0.1.92"
chrono = "=0.4.45"
futures-util = "=0.3.34"
inotify = "=0.11.5"
log = "=0.4.34"
systemd-journal-logger = "=2.2.2"
tokio = { version = "=1.53.2", features = ["rt-multi-thread", "macros", "sync", "time"] }
wayland-client = "=0.31.15"
xdg-user = "=0.3.0"
