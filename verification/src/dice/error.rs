use vstd::prelude::*;

verus! {

/// The errors with which the dice program refuses an instruction.
#[derive(Debug, Clone, Copy, PartialEq, Eq)]
pub enum ErrorCode {
    CustomError,
    /// The bet is below the smallest bet.
    MinimumBet,
    /// The roll is below the smallest roll.
    MinimumRoll,
    /// The roll is above the largest roll.
    MaxRoll,
}

} // verus!
