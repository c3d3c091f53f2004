[package]
name = "vanity_miner"
version = "0.1.0"
edition = "2021"

[dependencies]
hex = "0.4"
sha3 = "0.10"
rand = "0.8"
