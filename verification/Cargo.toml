[package]
name = "pmusic"
version = "0.1.0"
edition = "2021"
publish = false

[dependencies]
rand = { version = "0.8", features = ["small_rng"] }
roman = "0.1"
rodio = "0.17"
structopt = "0.3"
wav_io = "0.1"
