[package]
name = "framework"
version = "0.1.0"
edition = "2021"
publish = false

[dependencies]
gl = "0.14.0"
cgmath = "0.18.0"
