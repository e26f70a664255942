[package]
name = "ctrlc_fnonce"
version = "0.1.0"
edition = "2021"
publish = false

[dependencies]
ctrlc = "3"

[dev-dependencies]
nix = { version = "*", default-features = false, features = ["signal"] }
