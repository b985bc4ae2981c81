[package]
name = "stft"
version = "0.2.0"
edition = "2021"
publish = false

[dependencies]
apodize = "1.0"
rustfft = "3.0"
strider = "0.1"
