[package]
name = "fs_id"
version = "0.1.0"
edition = "2021"
publish = false

[dependencies]
nix = { version = "0.29", features = ["fs"] }

[dev-dependencies]
fs-err = "*"
