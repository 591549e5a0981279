[package]
name = "doombox"
version = "0.1.0"
edition = "2021"
publish = false

[dependencies]
dbsdk-rs = "*"
lazy_static = "1"
