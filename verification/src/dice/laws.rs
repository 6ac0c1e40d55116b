//! Properties of the dice game that span its instructions.
use vstd::prelude::*;
use crate::dice::constants::{MAX_ROLL, MINI_BET_LAMPORTS, MINI_ROLL};
use crate::dice::place_bet::{PlaceBet, PlaceBetBumps};
use crate::dice::refund_bet::RefundBet;
use crate::dice::error::ErrorCode;
use crate::dice::state::{Bet, LamportAccount};

verus! {

/// A bet is accepted exactly when its stake is at least the smallest bet and
/// its roll lies between the smallest and the largest roll. A stake below the
/// smallest bet is refused with `MinimumBet` before the roll is looked at; a
/// roll below the range with `MinimumRoll`, above it with `MaxRoll`. An
/// accepted bet records the player, the seed (all 128 bits, so that the bet
/// account's address can be derived from it again), the slot, the stake, the
/// roll and the bet account's bump exactly as given.
pub proof fn lemma_bet_accepted_iff_in_bounds(
    p: PlaceBet,
    seed: u128,
    roll: u8,
    amount: u64,
    slot: u64,
    bumps: PlaceBetBumps,
)
    ensures
        p.spec_place_bet(seed, roll, amount, slot, bumps) is Ok <==> (amount >= MINI_BET_LAMPORTS
            && MINI_ROLL <= roll <= MAX_ROLL),
        amount < MINI_BET_LAMPORTS ==> p.spec_place_bet(seed, roll, amount, slot, bumps) == Err::<Bet, ErrorCode>(
            ErrorCode::MinimumBet,
        ),
        amount >= MINI_BET_LAMPORTS && roll < MINI_ROLL ==> p.spec_place_bet(seed, roll, amount, slot, bumps)
            == Err::<Bet, ErrorCode>(ErrorCode::MinimumRoll),
        amount >= MINI_BET_LAMPORTS && roll > MAX_ROLL ==> p.spec_place_bet(seed, roll, amount, slot, bumps)
            == Err::<Bet, ErrorCode>(ErrorCode::MaxRoll),
        p.spec_place_bet(seed, roll, amount, slot, bumps) matches Ok(bet) ==> {
            &&& bet.player == p.player
            &&& bet.seed == seed
            &&& bet.slot == slot
            &&& bet.amount == amount
            &&& bet.roll == roll
            &&& bet.bump == bumps.bet
        },
{
}

/// Refunding a placed bet undoes its deposit: the refund moves exactly the
/// staked lamports, from the vault back to the player.
pub proof fn lemma_refund_undoes_deposit(
    p: PlaceBet,
    seed: u128,
    roll: u8,
    amount: u64,
    slot: u64,
    bumps: PlaceBetBumps,
)
    requires
        p.spec_place_bet(seed, roll, amount, slot, bumps) is Ok,
    ensures
        ({
            let bet = p.spec_place_bet(seed, roll, amount, slot, bumps)->Ok_0;
            let refund = (RefundBet { bet }).spec_refund_bet();
            let deposit = PlaceBet::spec_deposit(amount);
            &&& deposit.from == LamportAccount::Player
            &&& deposit.to == LamportAccount::Vault
            &&& deposit.amount == amount
            &&& refund.amount == deposit.amount
            &&& refund.from == deposit.to
            &&& refund.to == deposit.from
        }),
{
}

/// The checks `place_bet` makes before it reads the clock pass exactly when
/// the bet would be accepted, and refuse with the same error otherwise.
pub proof fn lemma_bet_check_agrees(p: PlaceBet, seed: u128, roll: u8, amount: u64, slot: u64, bumps: PlaceBetBumps)
    ensures
        PlaceBet::spec_check(roll, amount) is Ok <==> (amount >= MINI_BET_LAMPORTS && MINI_ROLL <= roll
            <= MAX_ROLL),
        PlaceBet::spec_check(roll, amount) matches Err(e) ==> p.spec_place_bet(seed, roll, amount, slot, bumps)
            == Err::<Bet, ErrorCode>(e),
{
}

} // verus!
