[package]
name = "recast-detour-rs"
version = "0.1.0"
edition = "2021"
publish = false

[dependencies]
recast-detour-sys = "=0.1.1"
