[package]
name = "unicode_normalizer"
version = "0.1.0"
edition = "2021"
publish = false

[dependencies]
unicode-normalization = "0.1"
walkdir = "2"
chrono = "0.4"
clap = { version = "4", features = ["derive"] }

[dev-dependencies]
tempdir = "0.3"
