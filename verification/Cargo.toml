[package]
name = "psyoracleutils"
version = "0.1.0"
edition = "2021"
publish = false

[dependencies]
anchor-lang = "=0.24.2"
pyth-sdk-solana = "=0.7.2"
switchboard-v2 = "=0.1.11"
