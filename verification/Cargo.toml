[package]
name = "solana_tx_parser"
version = "0.1.0"
edition = "2021"
publish = false

[dependencies]
bincode = "1.3"
bs58 = "0.5"
once_cell = "1"
parking_lot = "0.12"
reqwest = { version = "0.12", default-features = false, features = ["json"] }
serde = { version = "1", features = ["derive"] }
solana-pubkey = "2"
solana-sdk = { version = "2", default-features = false }
solana-transaction-error = "2"
solana-transaction-status-client-types = "2"
spl-token = "8"
spl-token-2022 = "8"
thiserror = "2"
tracing = "0.1"
