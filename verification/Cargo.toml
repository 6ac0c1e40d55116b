[package]
name = "amm_dice"
version = "0.1.0"
edition = "2021"
publish = false

[dependencies]
anchor-lang = { version = "=1.2.2", features = ["init-if-needed"] }
anchor-spl = "=1.2.2"
solana-instructions-sysvar = "=3.0.1"
solana-sdk-ids = "=3.1.0"

[dev-dependencies]
sha2 = "=0.10.9"
bs58 = "=0.5.1"
