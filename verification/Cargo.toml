[package]
name = "nix_fix_rustup"
version = "0.1.0"
edition = "2021"
publish = false
