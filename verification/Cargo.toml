[package]
name = "cargo_screeps"
version = "0.1.0"
edition = "2021"
publish = false

[dependencies]
toml = "0.8"
clap = "4"
fern = "0.7"
log = "0.4"
