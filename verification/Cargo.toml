[package]
name = "ss"
version = "0.1.0"
edition = "2021"
publish = false

[dependencies]
libc = "*"
nix = { version = "*", features = ["socket", "uio", "process"] }
