[package]
name = "zellij_cmd_k"
version = "0.1.0"
edition = "2021"
publish = false

[dependencies]
fuzzy-matcher = "=0.3.7"
zellij-tile = "=0.43.1"
