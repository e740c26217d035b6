[package]
name = "find_mix"
version = "0.1.0"
edition = "2021"
publish = false

[dependencies]
rayon = "1"
clap = "4"
mimalloc = "0.1"
