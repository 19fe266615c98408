[package]
name = "sound_mixer"
version = "0.1.0"
edition = "2021"
publish = false

[dependencies]
gc-arena = "*"
