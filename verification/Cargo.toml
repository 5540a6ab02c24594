[package]
name = "stark_pipeline"
version = "0.1.0"
edition = "2021"
publish = false

[dependencies]
swiftness_stark = { version = "=0.0.8", features = ["recursive_with_poseidon"] }
swiftness_air = { version = "=0.0.9", features = ["recursive_with_poseidon"] }
swiftness_fri = "<0.1"
swiftness_commitment = "<0.1"
swiftness_pow = "<0.1"
swiftness_transcript = "<0.1"
starknet-crypto = "=0.7.4"
bincode = "=1.3.3"
serde = { version = "=1.0.229", features = ["derive"] }
solana-program = "=5.1.0"
