[package]
name = "carbon_datasources"
version = "0.1.0"
edition = "2021"
publish = false

[dependencies]
async-trait = "0.1"
bincode = "=1.3.3"
chrono = { version = "0.4", default-features = false, features = ["clock"] }
futures = "0.3"
futures-util = "0.3"
log = "0.4"
metrics = "=0.24.6"
solana-account = "=3.4.0"
solana-account-decoder = { version = "=4.2.2", features = ["agave-unstable-api"] }
solana-hash = "=4.5.0"
solana-message = "=4.4.0"
solana-pubkey = "=4.2.1"
solana-short-vec = "=3.2.2"
solana-signature = "=3.4.1"
solana-system-interface = "=3.2.0"
solana-transaction = "=4.1.5"
solana-transaction-context = { version = "=4.2.2", features = ["agave-unstable-api"] }
solana-transaction-error = { version = "=3.3.2", features = ["serde"] }
solana-transaction-status = { version = "=4.2.2", features = ["agave-unstable-api"] }
solana-transaction-status-client-types = { version = "=4.2.2", features = ["agave-unstable-api"] }
thiserror = "2"
tokio = { version = "1", features = ["sync", "rt", "time", "macros"] }
tokio-util = "0.7"
yellowstone-grpc-client = "=13.5.1"
yellowstone-grpc-proto = "=12.7.0"
