[package]
name = "rps_wager"
version = "0.1.0"
edition = "2021"
publish = false

[dependencies]
base64 = "*"
rand_chacha = "*"
rand_core = "*"
sha2 = "*"
subtle = "*"
