[package]
name = "libnyx"
version = "0.1.0"
edition = "2021"
publish = false

[dependencies]
nix = { version = "=0.29.0", features = ["fs", "process", "mman", "socket", "uio"] }
ron = "*"
serde = "*"
serde_derive = "*"
fs4 = "*"
glob = "*"
colored = "*"
