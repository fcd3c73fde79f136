[package]
name = "clip_to_mpv"
version = "0.1.0"
edition = "2021"
publish = false

[dependencies]
url = "*"
arboard = "*"
ctrlc = "*"
which = "*"
