use vstd::prelude::*;

verus! {

/// A 32-byte account address.
pub type Pubkey = [u8; 32];

/// A bet account.
#[derive(Debug, Clone, Copy, PartialEq, Eq)]
pub struct Bet {
    /// The player who placed the bet.
    pub player: Pubkey,
    /// The seed the player chose for the bet account.
    pub seed: u128,
    /// The slot at which the bet was placed.
    pub slot: u64,
    /// The stake, in lamports.
    pub amount: u64,
    /// The roll bet on.
    pub roll: u8,
    /// Bump of the bet account.
    pub bump: u8,
}

/// The system accounts that a lamport transfer of the dice program moves between.
#[derive(Debug, Clone, Copy, PartialEq, Eq)]
pub enum LamportAccount {
    /// The player's wallet.
    Player,
    /// The house's vault (`["vault", house]`).
    Vault,
}

/// A transfer of lamports through the system program. Where `from` is the
/// vault, the program signs for it with `["vault", house, vault_bump]`.
#[derive(Debug, Clone, Copy, PartialEq, Eq)]
pub struct LamportTransfer {
    pub from: LamportAccount,
    pub to: LamportAccount,
    pub amount: u64,
}

} // verus!
