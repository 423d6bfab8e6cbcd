[package]
name = "ptyprocess"
version = "0.4.1"
edition = "2021"
publish = false

[dependencies]
nix = "0.26"
