[package]
name = "mc_gen"
version = "0.1.0"
edition = "2021"
publish = false

[dependencies]
named-binary-tag = "=0.6.0"
anvil-region = "=0.8.1"
anyhow = "=1.0.104"
rayon = "=1.12.0"
itertools = "=0.15.0"
