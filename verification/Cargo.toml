[package]
name = "listing_rewards"
version = "0.1.0"
edition = "2021"
publish = false

[dependencies]
solana-program = "=2.3.0"

[dev-dependencies]
spl-associated-token-account = "=1.1.3"
