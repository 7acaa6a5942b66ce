[package]
name = "kcov_rs"
version = "0.1.0"
edition = "2021"
publish = false

[dependencies]
exitcode = "1"
nix = { version = "0.29", features = ["fs", "ioctl", "mman"] }
