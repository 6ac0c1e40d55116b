use vstd::prelude::*;

verus! {

/// The errors with which the pool program refuses an instruction.
#[derive(Debug, Clone, Copy, PartialEq, Eq)]
pub enum AmmErrorCode {
    /// Generic refusal (locked pool, zero amount, slippage, failed swap).
    CustomError,
    /// The neighbouring instruction that a paired instruction needs is missing.
    MissingPriorInstruction,
    /// The neighbouring instruction carries data of the wrong length.
    InvalidDataLength,
    /// A zero amount, or an amount that does not match the paired instruction.
    InvalidAmount,
    /// The neighbouring instruction is addressed to another program.
    InvalidProgramId,
    /// The pool is locked.
    PoolLocked,
    /// An account of the neighbouring instruction is not the expected one.
    InvalidKey,
    /// The neighbouring instruction is not the expected instruction.
    UnexpectedDiscriminator,
    /// The neighbouring instruction lists the wrong number of accounts.
    InvalidAccountsLength,
}

} // verus!
