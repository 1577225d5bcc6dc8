[package]
name = "rerun"
version = "0.1.0"
edition = "2021"
publish = false

[dependencies]
ctrlc = "*"
nix = { version = "*", features = ["signal"] }
notify = "*"
