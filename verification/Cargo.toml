[package]
name = "authority_gossip"
version = "0.1.0"
edition = "2021"
publish = false

[dependencies]
hex = "0.4"
fastcrypto = "*"
tokio = { version = "1", features = ["rt", "time", "macros", "sync"] }
futures = "0.3"
