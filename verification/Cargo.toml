[package]
name = "cda_copy"
version = "0.1.0"
edition = "2021"
publish = false

[dependencies]
clap = { version = "*", features = ["derive"] }
eject = "*"
id3 = "*"
read_input = "*"
wav_concat = "*"
