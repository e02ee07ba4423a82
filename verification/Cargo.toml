[package]
name = "txbuilder"
version = "0.1.0"
edition = "2021"
publish = false

[dependencies]
curve25519-dalek = "=4.1.3"
hex = "=0.4.3"
url = "=2.5.8"
