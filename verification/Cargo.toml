[package]
name = "crc32sum"
version = "0.1.0"
edition = "2021"
publish = false

[dependencies]
bech32 = "*"
clap = { version = "*", features = ["derive"] }
colorize = "*"
crc32fast = "*"
mnemonic = "*"
