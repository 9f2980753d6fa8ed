[package]
name = "mosh_relay"
version = "0.1.0"
edition = "2021"
publish = false

[dependencies]
chacha20poly1305 = "0.10"
getrandom = "0.2"
fxhash = "0.2"
anyhow = "1"
argh = "0.1"
nix = { version = "0.29", features = ["poll"] }
