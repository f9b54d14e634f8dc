[package]
name = "clickr"
version = "0.1.1"
edition = "2021"
publish = false

[dependencies]
crossterm = "0.28"
evdev = "0.12"
nix = { version = "0.29", features = ["poll", "signal", "user"] }
notify-rust = "4"
rand = "0.8"
ratatui = "0.29"
