[package]
name = "vanity_seeds"
version = "0.1.0"
edition = "2021"
publish = false

[dependencies]
hex = "=0.4.3"
rand = "=0.9.5"
rouille = "=3.6.2"
rusqlite = { version = "=0.40.2", features = ["bundled", "fallible_uint"] }
serde = { version = "=1.0.229", features = ["derive"] }
solana-pubkey = { version = "=2.4.0", features = ["curve25519"] }
