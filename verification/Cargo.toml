[package]
name = "nbody"
version = "0.1.0"
edition = "2021"
publish = false

[dependencies]
csv = "1"
serde = "1"
serde_derive = "1"
