use vstd::prelude::*;

verus! {

/// Seed of the program.
pub const SEED: &'static str = "anchor";

/// The smallest bet, in lamports.
pub const MINI_BET_LAMPORTS: u64 = 10_000_000;

/// The smallest roll a player may bet on.
pub const MINI_ROLL: u8 = 1;

/// The largest roll a player may bet on.
pub const MAX_ROLL: u8 = 99;

/// The house edge, in basis points.
pub const HOUSE_EDGE_BPS: u16 = 150;

} // verus!
