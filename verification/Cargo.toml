[package]
name = "tinywasm_types"
version = "0.1.0"
edition = "2021"
publish = false

[dependencies]
rkyv = { version = "0.7", features = ["validation"] }
