[package]
name = "nonodo_launcher"
version = "0.1.0"
edition = "2021"
publish = false

[dependencies]
dotenvy = "=0.15.7"
nix = { version = "=0.31.3", features = ["feature", "fs", "signal"] }
signal-hook = "=0.4.5"
