[package]
name = "zk_porrinha"
version = "0.1.0"
edition = "2021"
publish = false

[dependencies]
sha2 = "*"
sha3 = "*"
rand = "*"
rand_chacha = "*"
soroban-sdk = "*"
