[package]
name = "chain_fixtures"
version = "0.1.0"
edition = "2021"
publish = false

[dependencies]
zebra-test = "*"
