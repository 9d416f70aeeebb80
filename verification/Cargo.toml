[package]
name = "cardinal_stake_pool"
version = "0.1.0"
edition = "2021"
publish = false

[dependencies]
anchor-lang = { version = "0.24.2", features = ["init-if-needed"] }
anchor-spl = "0.24.2"
cardinal-token-manager = { version = "*", features = ["cpi"] }
mpl-token-metadata = { version = "1.2.5", features = ["no-entrypoint"] }
solana-program = "1.9.13"
spl-token = { version = "3.3.0", features = ["no-entrypoint"] }
