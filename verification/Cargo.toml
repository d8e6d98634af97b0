[package]
name = "audius_reward_manager"
version = "0.1.0"
edition = "2021"
publish = false

[dependencies]
solana-program = "=5.1.0"
bs58 = "=0.5.1"
spl-token = { version = "=9.0.0", features = ["no-entrypoint"] }
solana-system-interface = { version = "=3.3.0", features = ["bincode"] }
solana-sanitize = "=3.0.1"
