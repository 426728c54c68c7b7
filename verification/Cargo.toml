[package]
name = "gamesync"
version = "0.1.0"
edition = "2021"
publish = false

[dependencies]
serde_json = "1"
async-std = "1"
get_if_addrs = "0.5"
