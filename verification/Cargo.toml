[package]
name = "nvidia_init"
version = "0.1.0"
edition = "2021"
publish = false

[dependencies]
anyhow = "1"
log = "0.4"
kernlog = "*"
nix = { version = "*", features = ["process", "mount"] }
