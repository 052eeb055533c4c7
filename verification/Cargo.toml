[package]
name = "promptline"
version = "0.1.0"
edition = "2021"
publish = false

[dependencies]
chrono = "*"
nix = { version = "*", features = ["user", "hostname"] }
