[package]
name = "mount_options"
version = "0.1.0"
edition = "2021"
publish = false

[dependencies]
nix = { version = "0.29", default-features = false, features = ["user", "mount"] }
cstr = "0.2"
