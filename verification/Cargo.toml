[package]
name = "pangi"
version = "0.1.0"
edition = "2021"
publish = false

[dependencies]
anchor-lang = { version = "=1.2.1", features = ["init-if-needed"] }
anchor-spl = { version = "=1.2.1", default-features = false, features = ["token", "solana-v3"] }
