[package]
name = "music"
version = "0.1.0"
edition = "2021"
publish = false

[dependencies]
rust-music-theory = "0.2"
cpal = "0.13.5"
anyhow = "1"
