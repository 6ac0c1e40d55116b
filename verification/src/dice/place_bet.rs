//! `place_bet`: record a bet, and `deposit`: pay the stake into the vault.
use vstd::prelude::*;
use crate::dice::constants::{MAX_ROLL, MINI_BET_LAMPORTS, MINI_ROLL};
use crate::dice::error::ErrorCode;
use crate::dice::state::{Bet, LamportAccount, LamportTransfer, Pubkey};

verus! {

/// The bumps found for the accounts that `place_bet` creates.
#[derive(Debug, Clone, Copy, PartialEq, Eq)]
pub struct PlaceBetBumps {
    pub vault: u8,
    pub bet: u8,
}

/// What `place_bet` reads of its accounts.
#[derive(Debug, Clone, Copy, PartialEq, Eq)]
pub struct PlaceBet {
    /// Address of the player.
    pub player: Pubkey,
}

impl PlaceBet {
    /// The checks on a bet: the stake is at least the smallest bet, and the
    /// roll lies between the smallest and the largest roll, checked in this order.
    pub open spec fn spec_check(roll: u8, amount: u64) -> Result<(), ErrorCode> {
        if !(amount >= MINI_BET_LAMPORTS) {
            Err(ErrorCode::MinimumBet)
        } else if !(roll >= MINI_ROLL) {
            Err(ErrorCode::MinimumRoll)
        } else if !(roll <= MAX_ROLL) {
            Err(ErrorCode::MaxRoll)
        } else {
            Ok(())
        }
    }

    /// The outcome of placing a bet on `roll` with `amount` lamports at `slot`.
    pub open spec fn spec_place_bet(self, seed: u128, roll: u8, amount: u64, slot: u64, bumps: PlaceBetBumps) -> Result<
        Bet,
        ErrorCode,
    > {
        match Self::spec_check(roll, amount) {
            Err(e) => Err(e),
            Ok(()) => Ok(Bet { player: self.player, seed, slot, amount, roll, bump: bumps.bet }),
        }
    }

    /// The stake of `amount` lamports moving from the player to the vault.
    pub open spec fn spec_deposit(amount: u64) -> LamportTransfer {
        LamportTransfer { from: LamportAccount::Player, to: LamportAccount::Vault, amount }
    }

    /// The checks that `place_bet` makes before it reads the clock.
    pub fn check(roll: u8, amount: u64) -> (res: Result<(), ErrorCode>)
        ensures
            res == Self::spec_check(roll, amount),
    {
        if !(amount >= MINI_BET_LAMPORTS) {
            return Err(ErrorCode::MinimumBet);
        }
        if !(roll >= MINI_ROLL) {
            return Err(ErrorCode::MinimumRoll);
        }
        if !(roll <= MAX_ROLL) {
            return Err(ErrorCode::MaxRoll);
        }
        Ok(())
    }

    /// The bet that the player places on `roll` with `amount` lamports at
    /// `slot`, once the checks pass.
    pub fn place_bet(&self, seed: u128, roll: u8, amount: u64, slot: u64, bumps: &PlaceBetBumps) -> (res:
        Result<Bet, ErrorCode>)
        ensures
            res == self.spec_place_bet(seed, roll, amount, slot, *bumps),
    {
        match Self::check(roll, amount) {
            Err(e) => {
                return Err(e);
            },
            Ok(()) => {},
        }
        Ok(Bet { player: self.player, seed, slot, amount, roll, bump: bumps.bet })
    }

    /// The stake of `amount` lamports moving from the player to the vault.
    pub fn deposit(&self, amount: u64) -> (t: LamportTransfer)
        ensures
            t == Self::spec_deposit(amount),
    {
        LamportTransfer { from: LamportAccount::Player, to: LamportAccount::Vault, amount }
    }
}

} // verus!
