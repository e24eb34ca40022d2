[package]
name = "near_cli"
version = "0.1.0"
edition = "2021"
publish = false

[dependencies]
near-primitives = "=0.37.4"
near-crypto = "=0.37.4"
borsh = "=1.8.1"
ed25519-dalek = "=2.2.0"
serde_json = "=1.0.151"
shell-words = "=1.1.1"
near-jsonrpc-client = "=0.22.0"
near-jsonrpc-primitives = "=0.37.4"
dialoguer = "=0.12.0"
clap = "=4.6.7"
color-eyre = "=0.6.5"
tokio = { version = "=1.53.2", features = ["rt"] }
