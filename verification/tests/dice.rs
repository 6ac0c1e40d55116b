use amm_dice::dice::constants::{HOUSE_EDGE_BPS, MAX_ROLL, MINI_BET_LAMPORTS, MINI_ROLL, SEED};
use amm_dice::dice::error::ErrorCode;
use amm_dice::dice::place_bet::{PlaceBet, PlaceBetBumps};
use amm_dice::dice::refund_bet::RefundBet;
use amm_dice::dice::state::{Bet, LamportAccount, LamportTransfer};

const PLAYER: [u8; 32] = [8u8; 32];

#[test]
fn constants_of_the_game() {
    assert_eq!(SEED, "anchor");
    assert_eq!(MINI_BET_LAMPORTS, 10_000_000);
    assert_eq!(MINI_ROLL, 1);
    assert_eq!(MAX_ROLL, 99);
    assert_eq!(HOUSE_EDGE_BPS, 150);
}

#[test]
fn place_bet_records_bet() {
    let p = PlaceBet { player: PLAYER };
    let bumps = PlaceBetBumps { vault: 3, bet: 4 };
    assert_eq!(
        p.place_bet(99, 50, 10_000_000, 1234, &bumps),
        Ok(Bet { player: PLAYER, seed: 99, slot: 1234, amount: 10_000_000, roll: 50, bump: 4 })
    );
    assert!(p.place_bet(1, 1, 10_000_000, 0, &bumps).is_ok());
    assert!(p.place_bet(1, 99, u64::MAX, 0, &bumps).is_ok());
}

#[test]
fn place_bet_refusals_in_order() {
    let p = PlaceBet { player: PLAYER };
    let bumps = PlaceBetBumps { vault: 3, bet: 4 };
    assert_eq!(p.place_bet(1, 0, 9_999_999, 0, &bumps), Err(ErrorCode::MinimumBet));
    assert_eq!(p.place_bet(1, 0, 10_000_000, 0, &bumps), Err(ErrorCode::MinimumRoll));
    assert_eq!(p.place_bet(1, 100, 10_000_000, 0, &bumps), Err(ErrorCode::MaxRoll));
    assert_eq!(PlaceBet::check(100, 9_999_999), Err(ErrorCode::MinimumBet));
    assert_eq!(PlaceBet::check(50, 10_000_000), Ok(()));
}

#[test]
fn deposit_moves_stake_into_vault() {
    let p = PlaceBet { player: PLAYER };
    assert_eq!(
        p.deposit(15_000_000),
        LamportTransfer { from: LamportAccount::Player, to: LamportAccount::Vault, amount: 15_000_000 }
    );
}

#[test]
fn refund_undoes_deposit() {
    let p = PlaceBet { player: PLAYER };
    let bumps = PlaceBetBumps { vault: 3, bet: 4 };
    let bet = p.place_bet(5, 42, 12_345_678, 9, &bumps).unwrap();
    let dep = p.deposit(12_345_678);
    let refund = RefundBet { bet }.refund_bet();
    assert_eq!(refund.amount, dep.amount);
    assert_eq!(refund.from, dep.to);
    assert_eq!(refund.to, dep.from);
}
