[package]
name = "gossip_round"
version = "0.1.0"
edition = "2021"
publish = false

[dependencies]
anyhow = "=1.0.104"
async-trait = "=0.1.92"
tracing = "=0.1.44"
