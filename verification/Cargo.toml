[package]
name = "vaultquad"
version = "0.1.0"
edition = "2021"
publish = false

[dependencies]
anyhow = "1"
async-trait = "0.1"
async-recursion = "1"
arboard = { version = "3", default-features = false }
