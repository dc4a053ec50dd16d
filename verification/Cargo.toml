[package]
name = "host_platform"
version = "0.1.0"
edition = "2021"

[dependencies]
target-lexicon = "*"
