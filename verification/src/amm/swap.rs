//! `swap`: trade one token of the pool for the other along the curve.
use vstd::prelude::*;
use crate::amm::error::AmmErrorCode;
use crate::amm::ops::{
    yields, AuthorityRole, MintRole, TokenAccountRole, TokenOp, TokenProgramRole,
};
use crate::amm::state::SwapResult;

verus! {

/// What `swap` reads of its accounts (the curve is priced from the vault
/// balances, the LP supply and the fee outside this function).
#[derive(Debug, Clone, Copy, PartialEq, Eq)]
pub struct Swap {
    pub mint_x_decimals: u8,
    pub mint_y_decimals: u8,
}

impl Swap {
    /// The check that comes before the curve is asked: the amount must not be zero.
    pub open spec fn spec_check(amount: u64) -> Result<(), AmmErrorCode> {
        if amount > 0 {
            Ok(())
        } else {
            Err(AmmErrorCode::CustomError)
        }
    }

    /// The transfer of `amount` of X (`is_x`) or Y from the user into its vault.
    pub open spec fn spec_deposit_token(self, is_x: bool, amount: u64) -> TokenOp {
        if is_x {
            TokenOp::TransferChecked {
                program: TokenProgramRole::X,
                from: TokenAccountRole::UserX,
                to: TokenAccountRole::VaultX,
                mint: MintRole::X,
                authority: AuthorityRole::User,
                amount,
                decimals: self.mint_x_decimals,
            }
        } else {
            TokenOp::TransferChecked {
                program: TokenProgramRole::Y,
                from: TokenAccountRole::UserY,
                to: TokenAccountRole::VaultY,
                mint: MintRole::Y,
                authority: AuthorityRole::User,
                amount,
                decimals: self.mint_y_decimals,
            }
        }
    }

    /// The transfer of `amount` of X (`is_x`) or Y from its vault to the
    /// user, signed by the config account.
    pub open spec fn spec_withdraw_token(self, is_x: bool, amount: u64) -> TokenOp {
        if is_x {
            TokenOp::TransferChecked {
                program: TokenProgramRole::X,
                from: TokenAccountRole::VaultX,
                to: TokenAccountRole::UserX,
                mint: MintRole::X,
                authority: AuthorityRole::Config,
                amount,
                decimals: self.mint_x_decimals,
            }
        } else {
            TokenOp::TransferChecked {
                program: TokenProgramRole::Y,
                from: TokenAccountRole::VaultY,
                to: TokenAccountRole::UserY,
                mint: MintRole::Y,
                authority: AuthorityRole::Config,
                amount,
                decimals: self.mint_y_decimals,
            }
        }
    }

    /// The outcome of swapping `amount` of X for Y (`is_x`) or of Y for X,
    /// where `outcome` is what the curve answered (`None` where it refused).
    pub open spec fn spec_swap(self, is_x: bool, amount: u64, outcome: Option<SwapResult>) -> Result<
        Seq<TokenOp>,
        AmmErrorCode,
    > {
        if amount == 0 {
            Err(AmmErrorCode::CustomError)
        } else {
            match outcome {
                None => Err(AmmErrorCode::CustomError),
                Some(r) => Ok(
                    seq![
                        self.spec_deposit_token(is_x, r.deposit),
                        self.spec_withdraw_token(!is_x, r.withdraw),
                    ],
                ),
            }
        }
    }

    /// The check that `swap` makes before it asks the curve.
    pub fn check(amount: u64) -> (res: Result<(), AmmErrorCode>)
        ensures
            res == Self::spec_check(amount),
    {
        if amount > 0 {
            Ok(())
        } else {
            Err(AmmErrorCode::CustomError)
        }
    }

    /// Swaps `amount` of X for Y (`is_x`) or of Y for X. The curve's refusal
    /// becomes `CustomError`; otherwise the user pays `deposit` into the vault
    /// of the side it sells and receives `withdraw` from the other vault.
    pub fn swap(&self, is_x: bool, amount: u64, outcome: Option<SwapResult>) -> (res: Result<
        Vec<TokenOp>,
        AmmErrorCode,
    >)
        ensures
            yields(res, self.spec_swap(is_x, amount, outcome)),
    {
        match Self::check(amount) {
            Err(e) => {
                return Err(e);
            },
            Ok(()) => {},
        }
        let r = match outcome {
            Some(r) => r,
            None => {
                return Err(AmmErrorCode::CustomError);
            },
        };
        Ok(vec![self.deposit_token(is_x, r.deposit), self.withdraw_token(!is_x, r.withdraw)])
    }

    fn deposit_token(&self, is_x: bool, amount: u64) -> (op: TokenOp)
        ensures
            op == self.spec_deposit_token(is_x, amount),
    {
        if is_x {
            TokenOp::TransferChecked {
                program: TokenProgramRole::X,
                from: TokenAccountRole::UserX,
                to: TokenAccountRole::VaultX,
                mint: MintRole::X,
                authority: AuthorityRole::User,
                amount,
                decimals: self.mint_x_decimals,
            }
        } else {
            TokenOp::TransferChecked {
                program: TokenProgramRole::Y,
                from: TokenAccountRole::UserY,
                to: TokenAccountRole::VaultY,
                mint: MintRole::Y,
                authority: AuthorityRole::User,
                amount,
                decimals: self.mint_y_decimals,
            }
        }
    }

    /// The transfer of `amount` of X (`is_x`) or Y from its vault to the
    /// user, signed by the config account.
    pub fn withdraw_token(&self, is_x: bool, amount: u64) -> (op: TokenOp)
        ensures
            op == self.spec_withdraw_token(is_x, amount),
    {
        if is_x {
            TokenOp::TransferChecked {
                program: TokenProgramRole::X,
                from: TokenAccountRole::VaultX,
                to: TokenAccountRole::UserX,
                mint: MintRole::X,
                authority: AuthorityRole::Config,
                amount,
                decimals: self.mint_x_decimals,
            }
        } else {
            TokenOp::TransferChecked {
                program: TokenProgramRole::Y,
                from: TokenAccountRole::VaultY,
                to: TokenAccountRole::UserY,
                mint: MintRole::Y,
                authority: AuthorityRole::Config,
                amount,
                decimals: self.mint_y_decimals,
            }
        }
    }
}

} // verus!
