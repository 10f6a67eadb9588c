[package]
name = "aleo_api_client"
version = "0.1.0"
edition = "2021"
publish = false

[dependencies]
anyhow = "1"
reqwest = "0.11"
snarkvm-console = "0.16"
ureq = "2"
