[package]
name = "evm_light_client"
version = "0.1.0"
edition = "2021"
publish = false

[dependencies]
anyhow = "1"
clap = { version = "4", features = ["derive"] }
displaydoc = "0.2"
hex = "0.4"
klave = "*"
snowbridge-milagro-bls = "*"
serde = { version = "1", features = ["derive"] }
serde_json = "1"
sha2 = "0.10"
ssz_rs = "*"
