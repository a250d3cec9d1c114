[package]
name = "atari_display"
version = "0.1.0"
edition = "2021"
publish = false

[dependencies]
bevy = { version = "=0.5.0", default-features = false, features = ["render"] }
disasm6502 = "=0.2.2"
pin-project = "=1.0.12"
