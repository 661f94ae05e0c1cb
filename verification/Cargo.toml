[package]
name = "wav"
version = "1.0.0"
edition = "2021"
publish = false

[dependencies]
riff = "1.0"
