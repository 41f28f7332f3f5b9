[package]
name = "stx2btc"
version = "0.1.0"
edition = "2021"
publish = false

[dependencies]
bech32 = "*"
c32address = "*"
thiserror = "*"
uniffi = "*"
