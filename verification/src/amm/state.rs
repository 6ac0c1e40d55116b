use vstd::prelude::*;

verus! {

/// A 32-byte account address.
pub type Pubkey = [u8; 32];

/// The address of the pool program (base58 `8NVA8HLgC9e3G4VgdfEAxPGeomNZgHFQGaAXDZsgYjHV`).
pub const ID: Pubkey = [
    109, 130, 215, 211, 237, 94, 105, 125, 78, 88, 182, 53, 172, 226, 248, 111,
    23, 198, 231, 43, 139, 98, 227, 214, 32, 194, 127, 116, 121, 101, 103, 44,
];

/// Instruction discriminator of `withdraw_with_introspection`: the first eight
/// bytes of SHA-256 of `global:withdraw_with_introspection`.
pub const WITHDRAW_WITH_INTROSPECTION_DISCRIMINATOR: [u8; 8] = [68, 233, 14, 251, 217, 60, 129, 222];

/// Instruction discriminator of `burn_lp`: the first eight bytes of SHA-256 of
/// `global:burn_lp`.
pub const BURN_LP_DISCRIMINATOR: [u8; 8] = [135, 136, 81, 255, 56, 231, 141, 85];

/// Instruction discriminator of `deposit_with_introspection`: the first eight
/// bytes of SHA-256 of `global:deposit_with_introspection`.
pub const DEPOSIT_WITH_INTROSPECTION_DISCRIMINATOR: [u8; 8] = [162, 78, 109, 110, 60, 184, 132, 23];

/// Instruction discriminator of `mint_lp`: the first eight bytes of SHA-256 of
/// `global:mint_lp`.
pub const MINT_LP_DISCRIMINATOR: [u8; 8] = [47, 47, 12, 223, 77, 203, 236, 174];

/// The pool's configuration account.
#[derive(Debug, Clone, Copy, PartialEq, Eq)]
pub struct Config {
    pub seed: u64,
    pub authority: Option<Pubkey>,
    pub mint_x: Pubkey,
    pub mint_y: Pubkey,
    pub fee: u16,
    pub locked: bool,
    pub config_bump: u8,
    pub lp_bump: u8,
}

/// One account entry of an instruction.
#[derive(Debug, Clone, Copy, PartialEq, Eq)]
pub struct AccountMeta {
    pub pubkey: Pubkey,
    pub is_signer: bool,
    pub is_writable: bool,
}

/// An instruction of the running transaction, as the instructions sysvar
/// reports it.
#[derive(Debug, Clone, PartialEq, Eq)]
pub struct Instruction {
    pub program_id: Pubkey,
    pub accounts: Vec<AccountMeta>,
    pub data: Vec<u8>,
}

/// Token amounts on both sides of the pool, as the constant-product curve
/// quotes them for a given amount of LP tokens.
#[derive(Debug, Clone, Copy, PartialEq, Eq)]
pub struct XYAmounts {
    pub x: u64,
    pub y: u64,
}

/// The outcome of a swap on the constant-product curve: what the user pays
/// into the pool, what the pool pays out, and the fee kept.
#[derive(Debug, Clone, Copy, PartialEq, Eq)]
pub struct SwapResult {
    pub deposit: u64,
    pub withdraw: u64,
    pub fee: u64,
}

} // verus!
