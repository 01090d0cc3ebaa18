[package]
name = "auto_splitter"
version = "0.1.0"
edition = "2021"
publish = false

[dependencies]
nix = { version = "*", features = ["uio", "process"] }
sysinfo = "*"
