[package]
name = "keylightd"
version = "0.1.0"
edition = "2021"
publish = false

[dependencies]
anyhow = "1.0"
argh = "0.1"
env_logger = "0.10"
evdev = "0.12"
log = "0.4"
nix = { version = "0.26", features = ["ioctl"] }
