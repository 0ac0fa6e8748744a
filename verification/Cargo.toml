[package]
name = "magicblock-chainlink"
version = "0.1.0"
edition = "2021"
publish = false

[dependencies]
lru = "=0.19.0"
bs58 = "=0.5.1"
borsh = "=1.8.1"
wincode = "=0.6.3"
solana-pubkey = "=4.4.0"
solana-sdk-ids = "=3.1.0"
solana-system-interface = { version = "=3.3.0", features = ["wincode", "bincode"] }
solana-sysvar = "=5.0.0"
solana-loader-v3-interface = "=9.0.0"
solana-instruction = "=4.0.0"
solana-keypair = "=3.1.2"
solana-signer = "=3.0.1"
magicblock-delegation-program-api = "=4.0.1"
tokio = { version = "=1.54.1", features = ["sync", "rt", "time", "macros"] }
futures-util = "=0.3.34"
parking_lot = "=0.12.5"
thiserror = "=2.0.21"
tracing = "=0.1.44"
scc = "=2.4.0"
solana-transaction-status-client-types = "=3.1.14"

[dev-dependencies]
base64 = "*"
