[package]
name = "haven"
version = "0.1.0"
edition = "2021"
publish = false

[dependencies]
rand = "0.8"

[dev-dependencies]
tiny-artnet = "*"
artnet_protocol = "*"
