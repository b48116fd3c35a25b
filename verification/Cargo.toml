[package]
name = "preflight"
version = "0.1.0"
edition = "2021"
publish = false

[dependencies]
glob = "*"
nix = { version = "*", features = ["user", "fs"] }
toml = "*"
