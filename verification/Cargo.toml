[package]
name = "cw_law_stone"
version = "0.1.0"
edition = "2021"
publish = false

[dependencies]
cosmwasm-std = "1"
cw-utils = "1"
serde-json-wasm = "*"
url = "2"
