[package]
name = "undead"
version = "0.1.0"
edition = "2021"
publish = false

[dependencies]
anchor-lang = "=1.2.2"
ephemeral-vrf-sdk = { version = "=0.17.3", features = ["anchor"] }
ephemeral-rollups-sdk = { version = "0.17.3", features = ["anchor"] }
session-keys = { version = "=3.1.1", features = ["no-entrypoint"] }
