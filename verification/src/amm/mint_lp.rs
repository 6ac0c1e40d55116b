//! `mint_lp`: mint LP tokens for a deposit that the previous instruction of
//! the transaction, `deposit_with_introspection`, paid in.
use vstd::prelude::*;
use crate::amm::error::AmmErrorCode;
use crate::amm::introspection::{check_sibling, readable, spec_check_sibling, AccountsLen};
use crate::amm::ops::{yields, AuthorityRole, MintRole, TokenAccountRole, TokenOp, TokenProgramRole};
use crate::amm::state::{Config, Instruction, Pubkey, DEPOSIT_WITH_INTROSPECTION_DISCRIMINATOR};

verus! {

/// What `mint_lp` reads of its accounts and of the instructions sysvar.
#[derive(Debug, Clone, PartialEq, Eq)]
pub struct MintLp {
    pub user: Pubkey,
    pub config: Config,
    /// Address of the config account.
    pub config_key: Pubkey,
    /// The instruction right before this one in the transaction, if any.
    pub prior_instruction: Option<Instruction>,
}

impl MintLp {
    /// The accounts that the `deposit_with_introspection` instruction has to
    /// list first, in order.
    pub open spec fn deposit_accounts(self) -> Seq<Pubkey> {
        seq![self.user, self.config.mint_x, self.config.mint_y, self.config_key]
    }

    /// The outcome of checking that the previous instruction is
    /// `deposit_with_introspection` of this program for `amount`, with 32
    /// bytes of data and at least 12 accounts that start with the user, both
    /// mints and the config.
    pub open spec fn spec_verify_deposit(self, amount: u64) -> Result<(), AmmErrorCode> {
        spec_check_sibling(
            self.prior_instruction,
            DEPOSIT_WITH_INTROSPECTION_DISCRIMINATOR@,
            32,
            AccountsLen::AtLeast(12),
            self.deposit_accounts(),
            amount,
        )
    }

    /// Minting `amount` LP tokens to the user, signed by the config account.
    pub open spec fn spec_mint_to(self, amount: u64) -> TokenOp {
        TokenOp::MintTo {
            program: TokenProgramRole::Lp,
            mint: MintRole::Lp,
            to: TokenAccountRole::UserLp,
            authority: AuthorityRole::Config,
            amount,
        }
    }

    /// The outcome of `mint_lp` for `amount`.
    pub open spec fn spec_mint_lp(self, amount: u64) -> Result<Seq<TokenOp>, AmmErrorCode> {
        if !(amount > 0) {
            Err(AmmErrorCode::InvalidAmount)
        } else if self.config.locked {
            Err(AmmErrorCode::PoolLocked)
        } else if self.spec_verify_deposit(amount) is Err {
            Err(self.spec_verify_deposit(amount)->Err_0)
        } else {
            Ok(seq![self.spec_mint_to(amount)])
        }
    }

    /// Mints `amount` LP tokens once the previous instruction is checked to be
    /// the matching deposit.
    pub fn mint_lp(&self, amount: u64) -> (res: Result<Vec<TokenOp>, AmmErrorCode>)
        requires
            amount > 0 && !self.config.locked ==> readable(self.prior_instruction),
        ensures
            yields(res, self.spec_mint_lp(amount)),
    {
        if !(amount > 0) {
            return Err(AmmErrorCode::InvalidAmount);
        }
        if self.config.locked {
            return Err(AmmErrorCode::PoolLocked);
        }
        match self.verify_deposit(amount) {
            Err(e) => {
                return Err(e);
            },
            Ok(()) => {},
        }
        let op = TokenOp::MintTo {
            program: TokenProgramRole::Lp,
            mint: MintRole::Lp,
            to: TokenAccountRole::UserLp,
            authority: AuthorityRole::Config,
            amount,
        };
        let ops = vec![op];
        assert(ops@ =~= seq![self.spec_mint_to(amount)]);
        Ok(ops)
    }

    /// Checks that the previous instruction is the `deposit_with_introspection`
    /// that this minting pays for; see [`MintLp::spec_verify_deposit`].
    pub fn verify_deposit(&self, amount: u64) -> (res: Result<(), AmmErrorCode>)
        requires
            readable(self.prior_instruction),
        ensures
            res == self.spec_verify_deposit(amount),
    {
        let expected = vec![self.user, self.config.mint_x, self.config.mint_y, self.config_key];
        assert(expected@ == self.deposit_accounts());
        check_sibling(
            &self.prior_instruction,
            &DEPOSIT_WITH_INTROSPECTION_DISCRIMINATOR,
            32,
            AccountsLen::AtLeast(12),
            &expected,
            amount,
        )
    }
}

} // verus!
