[package]
name = "icp_lottery"
version = "0.1.0"
edition = "2021"
publish = false

[dependencies]
candid = "0.10"
ic-cdk = "0.13"
ic-stable-structures = "0.6"
icrc-ledger-types = "0.1"
rand_chacha = "0.3"
serde = { version = "1", features = ["derive"] }
