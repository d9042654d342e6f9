[package]
name = "warden_contracts"
version = "0.1.0"
edition = "2021"
publish = false

[dependencies]
soroban-sdk = "*"
stellar-accounts = "*"
stellar-contract-utils = "*"
