[package]
name = "wasi-crypto-wasmtime"
version = "45.0.0"
edition = "2021"
publish = false

[dependencies]
thiserror = "=2.0.21"
wasi-crypto = "=0.1.16"
wasmtime = { version = "=45.0.3", default-features = false, features = ["std"] }
wiggle = "=45.0.3"
