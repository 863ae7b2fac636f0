[package]
name = "speech_features"
version = "0.1.0"
edition = "2021"
publish = false

[dependencies]
hound = "*"
image = "*"
ndarray = "*"
plotters = "*"
rustdct = "*"
rustfft = "*"
serde = "*"
serde_derive = "*"
serde_json = "*"
