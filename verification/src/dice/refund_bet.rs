//! `refund_bet`: return the stake of a bet to its player.
use vstd::prelude::*;
use crate::dice::state::{Bet, LamportAccount, LamportTransfer};

verus! {

/// What `refund_bet` reads of its accounts.
#[derive(Debug, Clone, Copy, PartialEq, Eq)]
pub struct RefundBet {
    /// The bet account, which belongs to the signing player.
    pub bet: Bet,
}

impl RefundBet {
    /// The stake of the bet moving from the vault back to the player.
    pub open spec fn spec_refund_bet(self) -> LamportTransfer {
        LamportTransfer { from: LamportAccount::Vault, to: LamportAccount::Player, amount: self.bet.amount }
    }

    /// The stake of the bet moving from the vault back to the player, signed
    /// by the vault.
    pub fn refund_bet(&self) -> (t: LamportTransfer)
        ensures
            t == self.spec_refund_bet(),
    {
        LamportTransfer { from: LamportAccount::Vault, to: LamportAccount::Player, amount: self.bet.amount }
    }
}

} // verus!
