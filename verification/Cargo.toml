[package]
name = "canister_bootstrap"
version = "0.1.0"
edition = "2021"
publish = false

[dependencies]
candid = "=0.10.39"
dirs = "=7.0.0"
garcon = "=0.2.3"
ic-agent = "=0.49.3"
serde = { version = "=1.0.229", features = ["derive"] }
serde_json = "=1.0.154"
