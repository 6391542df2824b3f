[package]
name = "ton_block_compressor"
version = "0.1.0"
edition = "2021"
publish = false

[dependencies]
anyhow = "1"
zstd = "0.13"

[dev-dependencies]
rand = "0.8"
