[package]
name = "rofi-snippets"
version = "0.1.0"
edition = "2021"
publish = false

[dependencies]
enigo = "*"
nix = { version = "*", features = ["process"] }
rofi-mode = "*"
serde = { version = "1", features = ["derive"] }
serde_json = "1"
