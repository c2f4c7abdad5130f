[package]
name = "swap_io_clmm_adapter"
version = "0.1.0"
edition = "2021"
publish = false

[dependencies]
anyhow = "*"
jupiter-amm-interface = "=0.4.7"
solana-sdk = "*"
