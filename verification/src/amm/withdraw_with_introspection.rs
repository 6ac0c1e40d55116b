//! `withdraw_with_introspection`: take the share of both vaults for an amount
//! of LP tokens that the next instruction of the transaction, `burn_lp`,
//! burns.
use vstd::prelude::*;
use crate::amm::error::AmmErrorCode;
use crate::amm::introspection::{check_sibling, readable, spec_check_sibling, AccountsLen};
use crate::amm::ops::{
    yields, AuthorityRole, MintRole, TokenAccountRole, TokenOp, TokenProgramRole,
};
use crate::amm::state::{Config, Instruction, Pubkey, XYAmounts, BURN_LP_DISCRIMINATOR};

verus! {

/// What `withdraw_with_introspection` reads of its accounts and of the
/// instructions sysvar.
#[derive(Debug, Clone, PartialEq, Eq)]
pub struct WithdrawWithIntrospection {
    pub user: Pubkey,
    pub config: Config,
    /// Address of the config account.
    pub config_key: Pubkey,
    /// Address of the LP mint.
    pub mint_lp_key: Pubkey,
    pub mint_x_decimals: u8,
    pub mint_y_decimals: u8,
    /// The instruction right after this one in the transaction, if any.
    pub next_instruction: Option<Instruction>,
}

impl WithdrawWithIntrospection {
    /// The accounts that the `burn_lp` instruction has to list first, in order.
    pub open spec fn burn_accounts(self) -> Seq<Pubkey> {
        seq![self.user, self.config_key, self.mint_lp_key]
    }

    /// The outcome of checking that the next instruction is `burn_lp` of this
    /// program for `amount`, with 8 accounts that start with the user, the
    /// config and the LP mint.
    pub open spec fn spec_verify_burn(self, amount: u64) -> Result<(), AmmErrorCode> {
        spec_check_sibling(
            self.next_instruction,
            BURN_LP_DISCRIMINATOR@,
            16,
            AccountsLen::Exactly(8),
            self.burn_accounts(),
            amount,
        )
    }

    /// The checks that come before the curve is asked.
    pub open spec fn spec_check(self, amount: u64) -> Result<(), AmmErrorCode> {
        if !(amount > 0) {
            Err(AmmErrorCode::InvalidAmount)
        } else if self.config.locked {
            Err(AmmErrorCode::PoolLocked)
        } else {
            self.spec_verify_burn(amount)
        }
    }

    /// The transfer of `amount` of X (`is_x`) or Y from its vault to the
    /// user, authorised by the user.
    pub open spec fn spec_withdraw_token(self, is_x: bool, amount: u64) -> TokenOp {
        if is_x {
            TokenOp::TransferChecked {
                program: TokenProgramRole::X,
                from: TokenAccountRole::VaultX,
                to: TokenAccountRole::UserX,
                mint: MintRole::X,
                authority: AuthorityRole::User,
                amount,
                decimals: self.mint_x_decimals,
            }
        } else {
            TokenOp::TransferChecked {
                program: TokenProgramRole::Y,
                from: TokenAccountRole::VaultY,
                to: TokenAccountRole::UserY,
                mint: MintRole::Y,
                authority: AuthorityRole::User,
                amount,
                decimals: self.mint_y_decimals,
            }
        }
    }

    /// The outcome of withdrawing for `amount` LP tokens at the curve's
    /// `quote`, for at least `min_x` of X and `min_y` of Y.
    pub open spec fn spec_withdraw(self, amount: u64, min_x: u64, min_y: u64, quote: XYAmounts) -> Result<
        Seq<TokenOp>,
        AmmErrorCode,
    > {
        if self.spec_check(amount) is Err {
            Err(self.spec_check(amount)->Err_0)
        } else if quote.x >= min_x && quote.y >= min_y {
            Ok(seq![self.spec_withdraw_token(true, quote.x), self.spec_withdraw_token(false, quote.y)])
        } else {
            Err(AmmErrorCode::InvalidAmount)
        }
    }

    /// The checks that `withdraw_with_introseption` makes before it asks the curve.
    pub fn check(&self, amount: u64) -> (res: Result<(), AmmErrorCode>)
        requires
            amount > 0 && !self.config.locked ==> readable(self.next_instruction),
        ensures
            res == self.spec_check(amount),
    {
        if !(amount > 0) {
            return Err(AmmErrorCode::InvalidAmount);
        }
        if self.config.locked {
            return Err(AmmErrorCode::PoolLocked);
        }
        self.verify_burn(amount)
    }

    /// Withdraws for `amount` LP tokens at the curve's `quote`, once the next
    /// instruction is checked to burn them; refused with `InvalidAmount` where
    /// the quote pays less than `min_x` or `min_y`.
    pub fn withdraw_with_introseption(&self, amount: u64, min_x: u64, min_y: u64, quote: XYAmounts) -> (res:
        Result<Vec<TokenOp>, AmmErrorCode>)
        requires
            amount > 0 && !self.config.locked ==> readable(self.next_instruction),
        ensures
            yields(res, self.spec_withdraw(amount, min_x, min_y, quote)),
    {
        match self.check(amount) {
            Err(e) => {
                return Err(e);
            },
            Ok(()) => {},
        }
        let (x, y) = (quote.x, quote.y);
        if !(x >= min_x && y >= min_y) {
            return Err(AmmErrorCode::InvalidAmount);
        }
        Ok(vec![self.withdraw_token(true, x), self.withdraw_token(false, y)])
    }

    fn withdraw_token(&self, is_x: bool, amount: u64) -> (op: TokenOp)
        ensures
            op == self.spec_withdraw_token(is_x, amount),
    {
        if is_x {
            TokenOp::TransferChecked {
                program: TokenProgramRole::X,
                from: TokenAccountRole::VaultX,
                to: TokenAccountRole::UserX,
                mint: MintRole::X,
                authority: AuthorityRole::User,
                amount,
                decimals: self.mint_x_decimals,
            }
        } else {
            TokenOp::TransferChecked {
                program: TokenProgramRole::Y,
                from: TokenAccountRole::VaultY,
                to: TokenAccountRole::UserY,
                mint: MintRole::Y,
                authority: AuthorityRole::User,
                amount,
                decimals: self.mint_y_decimals,
            }
        }
    }

    fn verify_burn(&self, amount: u64) -> (res: Result<(), AmmErrorCode>)
        requires
            readable(self.next_instruction),
        ensures
            res == self.spec_verify_burn(amount),
    {
        let expected = vec![self.user, self.config_key, self.mint_lp_key];
        assert(expected@ == self.burn_accounts());
        check_sibling(
            &self.next_instruction,
            &BURN_LP_DISCRIMINATOR,
            16,
            AccountsLen::Exactly(8),
            &expected,
            amount,
        )
    }
}

} // verus!
