[package]
name = "spdmlib"
version = "0.1.0"
edition = "2021"
publish = false

[dependencies]
maybe-async = "0.2"
serde_json = "1"
spin = "0.9"
