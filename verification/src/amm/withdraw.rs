//! `withdraw`: burn LP tokens and take the matching share of both vaults.
use vstd::prelude::*;
use crate::amm::error::AmmErrorCode;
use crate::amm::ops::{
    yields, AuthorityRole, MintRole, TokenAccountRole, TokenOp, TokenProgramRole,
};
use crate::amm::state::{Config, XYAmounts};

verus! {

/// What `withdraw` reads of its accounts (the curve is priced from the vault
/// balances and the LP supply outside this function).
#[derive(Debug, Clone, Copy, PartialEq, Eq)]
pub struct Withdraw {
    pub config: Config,
    pub mint_x_decimals: u8,
    pub mint_y_decimals: u8,
    pub mint_lp_decimals: u8,
}

impl Withdraw {
    /// The checks that come before the curve is asked: the pool must not be
    /// locked and the LP amount must not be zero.
    pub open spec fn spec_check(self, amount: u64) -> Result<(), AmmErrorCode> {
        if self.config.locked {
            Err(AmmErrorCode::CustomError)
        } else if amount == 0 {
            Err(AmmErrorCode::CustomError)
        } else {
            Ok(())
        }
    }

    /// The transfer of `amount` of X (`is_x`) or Y from its vault to the
    /// user, signed by the config account.
    pub open spec fn spec_withdraw_token(self, is_x: bool, amount: u64) -> TokenOp {
        if is_x {
            TokenOp::TransferChecked {
                program: TokenProgramRole::X,
                from: TokenAccountRole::VaultX,
                to: TokenAccountRole::UserX,
                mint: MintRole::X,
                authority: AuthorityRole::Config,
                amount,
                decimals: self.mint_x_decimals,
            }
        } else {
            TokenOp::TransferChecked {
                program: TokenProgramRole::Y,
                from: TokenAccountRole::VaultY,
                to: TokenAccountRole::UserY,
                mint: MintRole::Y,
                authority: AuthorityRole::Config,
                amount,
                decimals: self.mint_y_decimals,
            }
        }
    }

    /// Burning `amount` of the user's LP tokens, authorised by the user.
    pub open spec fn spec_burn_lp_tokens(self, amount: u64) -> TokenOp {
        TokenOp::BurnChecked {
            program: TokenProgramRole::Lp,
            mint: MintRole::Lp,
            from: TokenAccountRole::UserLp,
            authority: AuthorityRole::User,
            amount,
            decimals: self.mint_lp_decimals,
        }
    }

    /// The outcome of withdrawing `amount` LP tokens for at least `min_x` of
    /// X and `min_y` of Y, where `quote` is what the curve pays for them.
    pub open spec fn spec_withdraw(self, amount: u64, min_x: u64, min_y: u64, quote: XYAmounts) -> Result<
        Seq<TokenOp>,
        AmmErrorCode,
    > {
        if self.spec_check(amount) is Err {
            Err(self.spec_check(amount)->Err_0)
        } else if quote.x >= min_x && quote.y >= min_y {
            Ok(
                seq![
                    self.spec_burn_lp_tokens(amount),
                    self.spec_withdraw_token(true, quote.x),
                    self.spec_withdraw_token(false, quote.y),
                ],
            )
        } else {
            Err(AmmErrorCode::CustomError)
        }
    }

    /// The checks that `withdraw` makes before it asks the curve.
    pub fn check(&self, amount: u64) -> (res: Result<(), AmmErrorCode>)
        ensures
            res == self.spec_check(amount),
    {
        if self.config.locked {
            return Err(AmmErrorCode::CustomError);
        }
        if amount == 0 {
            return Err(AmmErrorCode::CustomError);
        }
        Ok(())
    }

    /// Withdraws for `amount` LP tokens at the curve's `quote`, refused where
    /// it pays less than `min_x` or `min_y`. The LP tokens are burnt first,
    /// then X and Y leave their vaults.
    pub fn withdraw(&self, amount: u64, min_x: u64, min_y: u64, quote: XYAmounts) -> (res: Result<
        Vec<TokenOp>,
        AmmErrorCode,
    >)
        ensures
            yields(res, self.spec_withdraw(amount, min_x, min_y, quote)),
    {
        match self.check(amount) {
            Err(e) => {
                return Err(e);
            },
            Ok(()) => {},
        }
        let (x, y) = (quote.x, quote.y);
        if !(x >= min_x && y >= min_y) {
            return Err(AmmErrorCode::CustomError);
        }
        Ok(vec![self.burn_lp_tokens(amount), self.withdraw_token(true, x), self.withdraw_token(false, y)])
    }

    fn withdraw_token(&self, is_x: bool, amount: u64) -> (op: TokenOp)
        ensures
            op == self.spec_withdraw_token(is_x, amount),
    {
        if is_x {
            TokenOp::TransferChecked {
                program: TokenProgramRole::X,
                from: TokenAccountRole::VaultX,
                to: TokenAccountRole::UserX,
                mint: MintRole::X,
                authority: AuthorityRole::Config,
                amount,
                decimals: self.mint_x_decimals,
            }
        } else {
            TokenOp::TransferChecked {
                program: TokenProgramRole::Y,
                from: TokenAccountRole::VaultY,
                to: TokenAccountRole::UserY,
                mint: MintRole::Y,
                authority: AuthorityRole::Config,
                amount,
                decimals: self.mint_y_decimals,
            }
        }
    }

    fn burn_lp_tokens(&self, amount: u64) -> (op: TokenOp)
        ensures
            op == self.spec_burn_lp_tokens(amount),
    {
        TokenOp::BurnChecked {
            program: TokenProgramRole::Lp,
            mint: MintRole::Lp,
            from: TokenAccountRole::UserLp,
            authority: AuthorityRole::User,
            amount,
            decimals: self.mint_lp_decimals,
        }
    }
}

} // verus!
