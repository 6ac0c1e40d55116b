//! `deposit`: add liquidity to both sides of the pool and receive LP tokens.
use vstd::prelude::*;
use crate::amm::error::AmmErrorCode;
use crate::amm::ops::{
    yields, AuthorityRole, MintRole, TokenAccountRole, TokenOp, TokenProgramRole,
};
use crate::amm::state::{Config, XYAmounts};

verus! {

/// What `deposit` reads of its accounts.
#[derive(Debug, Clone, Copy, PartialEq, Eq)]
pub struct Deposit {
    pub config: Config,
    /// Balance of the pool's vault of token X.
    pub vault_x_amount: u64,
    /// Balance of the pool's vault of token Y.
    pub vault_y_amount: u64,
    /// Supply of the LP mint.
    pub lp_supply: u64,
    pub mint_x_decimals: u8,
    pub mint_y_decimals: u8,
}

impl Deposit {
    /// The pool holds nothing yet: no LP token exists and both vaults are empty.
    /// The first depositor then sets the price by the amounts it offers.
    pub open spec fn pool_is_empty(self) -> bool {
        self.lp_supply == 0 && self.vault_x_amount == 0 && self.vault_y_amount == 0
    }

    /// The checks that come before the pool is priced: the pool must not be
    /// locked and the LP amount must not be zero.
    pub open spec fn spec_check(self, amount: u64) -> Result<(), AmmErrorCode> {
        if self.config.locked {
            Err(AmmErrorCode::CustomError)
        } else if amount == 0 {
            Err(AmmErrorCode::CustomError)
        } else {
            Ok(())
        }
    }

    /// The transfer of `amount` of token X (`is_x`) or Y from the user into its vault.
    pub open spec fn spec_deposit_token(self, is_x: bool, amount: u64) -> TokenOp {
        if is_x {
            TokenOp::TransferChecked {
                program: TokenProgramRole::X,
                from: TokenAccountRole::UserX,
                to: TokenAccountRole::VaultX,
                mint: MintRole::X,
                authority: AuthorityRole::User,
                amount,
                decimals: self.mint_x_decimals,
            }
        } else {
            TokenOp::TransferChecked {
                program: TokenProgramRole::Y,
                from: TokenAccountRole::UserY,
                to: TokenAccountRole::VaultY,
                mint: MintRole::Y,
                authority: AuthorityRole::User,
                amount,
                decimals: self.mint_y_decimals,
            }
        }
    }

    /// Minting `amount` LP tokens to the user, signed by the config account.
    pub open spec fn spec_mint_lp_token(self, amount: u64) -> TokenOp {
        TokenOp::MintTo {
            program: TokenProgramRole::Lp,
            mint: MintRole::Lp,
            to: TokenAccountRole::UserLp,
            authority: AuthorityRole::Config,
            amount,
        }
    }

    /// The outcome of depositing for `amount` LP tokens, paying at most
    /// `max_x` of X and `max_y` of Y, where `quote` is what the curve asks
    /// for `amount` LP tokens from a pool that is not empty.
    pub open spec fn spec_deposit(
        self,
        amount: u64,
        max_x: u64,
        max_y: u64,
        quote: Option<XYAmounts>,
    ) -> Result<Seq<TokenOp>, AmmErrorCode> {
        if self.spec_check(amount) is Err {
            Err(self.spec_check(amount)->Err_0)
        } else if self.pool_is_empty() {
            Ok(
                seq![
                    self.spec_deposit_token(true, max_x),
                    self.spec_deposit_token(false, max_y),
                    self.spec_mint_lp_token(amount),
                ],
            )
        } else {
            let q = quote->Some_0;
            if q.x <= max_x && q.y <= max_y {
                Ok(
                    seq![
                        self.spec_deposit_token(true, q.x),
                        self.spec_deposit_token(false, q.y),
                        self.spec_mint_lp_token(amount),
                    ],
                )
            } else {
                Err(AmmErrorCode::CustomError)
            }
        }
    }

    /// Whether the deposit has to be priced by the curve, that is, whether
    /// the pool is not empty.
    pub fn needs_quote(&self) -> (r: bool)
        ensures
            r == !self.pool_is_empty(),
    {
        !(self.lp_supply == 0 && self.vault_x_amount == 0 && self.vault_y_amount == 0)
    }

    /// The checks that `deposit` makes before it prices the deposit.
    pub fn check(&self, amount: u64) -> (res: Result<(), AmmErrorCode>)
        ensures
            res == self.spec_check(amount),
    {
        if self.config.locked {
            return Err(AmmErrorCode::CustomError);
        }
        if amount == 0 {
            return Err(AmmErrorCode::CustomError);
        }
        Ok(())
    }

    /// Deposits for `amount` LP tokens. An empty pool takes `max_x` and
    /// `max_y` as offered; otherwise the curve's `quote` is taken, and refused
    /// where it asks for more than `max_x` or `max_y`. The operations are the
    /// two transfers into the vaults, X first, then the minting of the LP tokens.
    pub fn deposit(&self, amount: u64, max_x: u64, max_y: u64, quote: Option<XYAmounts>) -> (res:
        Result<Vec<TokenOp>, AmmErrorCode>)
        requires
            self.spec_check(amount) is Ok && !self.pool_is_empty() ==> quote is Some,
        ensures
            yields(res, self.spec_deposit(amount, max_x, max_y, quote)),
    {
        match self.check(amount) {
            Err(e) => {
                return Err(e);
            },
            Ok(()) => {},
        }
        let (x, y) = if !self.needs_quote() {
            (max_x, max_y)
        } else {
            let q = match quote {
                Some(q) => q,
                None => {
                    return Err(AmmErrorCode::CustomError);
                },
            };
            if !(q.x <= max_x && q.y <= max_y) {
                return Err(AmmErrorCode::CustomError);
            }
            (q.x, q.y)
        };
        let ops = vec![
            self.deposit_token(true, x),
            self.deposit_token(false, y),
            self.mint_lp_token(amount),
        ];
        Ok(ops)
    }

    fn deposit_token(&self, is_x: bool, amount: u64) -> (op: TokenOp)
        ensures
            op == self.spec_deposit_token(is_x, amount),
    {
        if is_x {
            TokenOp::TransferChecked {
                program: TokenProgramRole::X,
                from: TokenAccountRole::UserX,
                to: TokenAccountRole::VaultX,
                mint: MintRole::X,
                authority: AuthorityRole::User,
                amount,
                decimals: self.mint_x_decimals,
            }
        } else {
            TokenOp::TransferChecked {
                program: TokenProgramRole::Y,
                from: TokenAccountRole::UserY,
                to: TokenAccountRole::VaultY,
                mint: MintRole::Y,
                authority: AuthorityRole::User,
                amount,
                decimals: self.mint_y_decimals,
            }
        }
    }

    fn mint_lp_token(&self, amount: u64) -> (op: TokenOp)
        ensures
            op == self.spec_mint_lp_token(amount),
    {
        TokenOp::MintTo {
            program: TokenProgramRole::Lp,
            mint: MintRole::Lp,
            to: TokenAccountRole::UserLp,
            authority: AuthorityRole::Config,
            amount,
        }
    }
}

} // verus!
