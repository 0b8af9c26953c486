[package]
name = "zombienet_configuration"
version = "0.1.0"
edition = "2021"
publish = false

[dependencies]
multiaddr = "0.18"
url = "2"
