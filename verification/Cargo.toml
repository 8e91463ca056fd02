[package]
name = "fruticose"
version = "0.1.0"
edition = "2021"
publish = false

[dependencies]
bitvec = "1"
unicode-segmentation = "1"
unicode-width = "0.1"
anyhow = "1"
argh = "0.1"
ctrlc = "3"
nu-ansi-term = "*"
tracing = "0.1"
tracing-subscriber = "0.3"

[dev-dependencies]
nanorand = "0.7"
