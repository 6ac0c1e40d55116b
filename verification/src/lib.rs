//! Verified decision logic of two Solana programs: a constant-product
//! liquidity pool (`amm`) and a dice game (`dice`).
//!
//! Every instruction handler here is a pure function of the account state it
//! reads and of its arguments. It either rejects the instruction with the
//! program's error code or returns the token (or lamport) movements that the
//! runtime has to perform, in the order in which they have to happen.
pub mod amm;
pub mod dice;
