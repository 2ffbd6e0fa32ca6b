[package]
name = "cashu_pos"
version = "0.1.0"
edition = "2021"
publish = false

[dependencies]
url = "2"
nostr-sdk = "0.22"
tokio = { version = "1", features = ["rt", "time", "macros"] }
