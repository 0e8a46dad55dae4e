[package]
name = "letsnote_wheelpad"
version = "0.1.0"
edition = "2021"
publish = false

[dependencies]
evdev = "0.12"
nix = "0.29"
regex = "1"
thiserror = "2"
toml = "0.8"
