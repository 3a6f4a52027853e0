[package]
name = "zenbook-duo-daemon"
version = "0.1.0"
edition = "2021"
publish = false

[dependencies]
evdev-rs = "0.6"
futures = "0.3"
inotify = "0.11"
log = "0.4"
nix = { version = "*", features = ["ioctl"] }
nusb = { version = "0.2", features = ["tokio"] }
pulseaudio = "*"
tokio = { version = "1", features = ["fs", "macros", "rt", "sync", "time"] }
users = "0.11"
zbus = { version = "5", default-features = false, features = ["tokio"] }
