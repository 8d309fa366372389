[package]
name = "voice_input"
version = "0.1.0"
edition = "2021"
publish = false

[dependencies]
arboard = "*"
cpal = "*"
ctrlc = "*"
hound = "*"
whisper-rs = "*"
