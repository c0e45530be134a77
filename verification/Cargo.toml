[package]
name = "sandbox_core"
version = "0.1.0"
edition = "2021"
publish = false

[dependencies]
libc = "*"
nix = { version = "*", features = ["resource", "signal"] }
