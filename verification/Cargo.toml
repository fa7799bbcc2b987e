[package]
name = "pyoxidizer"
version = "0.1.0"
edition = "2021"
publish = false

[dependencies]
anyhow = "*"
itertools = "*"
rustc_version = "*"
slog = "*"
tar = "*"
tempdir = "*"
zstd = "*"
