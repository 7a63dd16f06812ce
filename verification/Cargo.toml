[package]
name = "spine_pbr"
version = "0.1.0"
edition = "2021"
publish = false

[dependencies]
glam = "0.23"
anyhow = "1"
xshell = "0.2"
