[package]
name = "screensaver_battle_autosplitter"
version = "0.1.0"
edition = "2021"
publish = false

[dependencies]
asr = "*"
dlmalloc = "*"
time = "*"
