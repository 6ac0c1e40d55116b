//! `burn_lp`: burn LP tokens for a withdrawal that the previous instruction
//! of the transaction, `withdraw_with_introspection`, paid out.
use vstd::prelude::*;
use crate::amm::error::AmmErrorCode;
use crate::amm::introspection::{check_sibling, readable, spec_check_sibling, AccountsLen};
use crate::amm::ops::{yields, AuthorityRole, MintRole, TokenAccountRole, TokenOp, TokenProgramRole};
use crate::amm::state::{Config, Instruction, Pubkey, WITHDRAW_WITH_INTROSPECTION_DISCRIMINATOR};

verus! {

/// What `burn_lp` reads of its accounts and of the instructions sysvar.
#[derive(Debug, Clone, PartialEq, Eq)]
pub struct BurnLp {
    pub user: Pubkey,
    pub config: Config,
    /// Address of the config account.
    pub config_key: Pubkey,
    /// Address of the LP mint.
    pub mint_lp_key: Pubkey,
    /// The instruction right before this one in the transaction, if any.
    pub prior_instruction: Option<Instruction>,
}

impl BurnLp {
    /// The accounts that the `withdraw_with_introspection` instruction has to
    /// list first, in order.
    pub open spec fn withdraw_accounts(self) -> Seq<Pubkey> {
        seq![self.user, self.config.mint_x, self.config.mint_y, self.config_key, self.mint_lp_key]
    }

    /// The outcome of checking that the previous instruction is
    /// `withdraw_with_introspection` of this program for `amount`, with 32
    /// bytes of data and 14 accounts that start with the user, both mints,
    /// the config and the LP mint.
    pub open spec fn spec_verify_withdraw(self, amount: u64) -> Result<(), AmmErrorCode> {
        spec_check_sibling(
            self.prior_instruction,
            WITHDRAW_WITH_INTROSPECTION_DISCRIMINATOR@,
            32,
            AccountsLen::Exactly(14),
            self.withdraw_accounts(),
            amount,
        )
    }

    /// Burning `amount` of the user's LP tokens, signed by the config account.
    pub open spec fn spec_burn(self, amount: u64) -> TokenOp {
        TokenOp::Burn {
            program: TokenProgramRole::Lp,
            mint: MintRole::Lp,
            from: TokenAccountRole::UserLp,
            authority: AuthorityRole::Config,
            amount,
        }
    }

    /// The outcome of `burn_lp` for `amount`.
    pub open spec fn spec_burn_lp(self, amount: u64) -> Result<Seq<TokenOp>, AmmErrorCode> {
        if !(amount > 0) {
            Err(AmmErrorCode::InvalidAmount)
        } else if self.config.locked {
            Err(AmmErrorCode::PoolLocked)
        } else if self.spec_verify_withdraw(amount) is Err {
            Err(self.spec_verify_withdraw(amount)->Err_0)
        } else {
            Ok(seq![self.spec_burn(amount)])
        }
    }

    /// Burns `amount` LP tokens once the previous instruction is checked to be
    /// the matching withdrawal.
    pub fn burn_lp(&self, amount: u64) -> (res: Result<Vec<TokenOp>, AmmErrorCode>)
        requires
            amount > 0 && !self.config.locked ==> readable(self.prior_instruction),
        ensures
            yields(res, self.spec_burn_lp(amount)),
    {
        if !(amount > 0) {
            return Err(AmmErrorCode::InvalidAmount);
        }
        if self.config.locked {
            return Err(AmmErrorCode::PoolLocked);
        }
        match self.verify_withdraw(amount) {
            Err(e) => {
                return Err(e);
            },
            Ok(()) => {},
        }
        let op = TokenOp::Burn {
            program: TokenProgramRole::Lp,
            mint: MintRole::Lp,
            from: TokenAccountRole::UserLp,
            authority: AuthorityRole::Config,
            amount,
        };
        let ops = vec![op];
        assert(ops@ =~= seq![self.spec_burn(amount)]);
        Ok(ops)
    }

    /// Checks that the previous instruction is the `withdraw_with_introspection`
    /// that this burn pays for; see [`BurnLp::spec_verify_withdraw`].
    pub fn verify_withdraw(&self, amount: u64) -> (res: Result<(), AmmErrorCode>)
        requires
            readable(self.prior_instruction),
        ensures
            res == self.spec_verify_withdraw(amount),
    {
        let expected = vec![
            self.user,
            self.config.mint_x,
            self.config.mint_y,
            self.config_key,
            self.mint_lp_key,
        ];
        assert(expected@ == self.withdraw_accounts());
        check_sibling(
            &self.prior_instruction,
            &WITHDRAW_WITH_INTROSPECTION_DISCRIMINATOR,
            32,
            AccountsLen::Exactly(14),
            &expected,
            amount,
        )
    }
}

} // verus!
