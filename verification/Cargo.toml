[package]
name = "thin_client"
version = "0.1.0"
edition = "2021"
publish = false

[dependencies]
clap = "2.33"
solana-clap-utils = "~1.2"
solana-cli-config = "~1.2"
solana-client = "~1.2"
solana-runtime = "~1.2"
solana-sdk = "~1.2"
