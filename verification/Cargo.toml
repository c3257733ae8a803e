[package]
name = "frame_sharing"
version = "0.1.0"
edition = "2021"
publish = false

[dependencies]
ash = "*"
libc = "*"
nix = { version = "*", features = ["socket", "uio"] }
