//! Checks on a neighbouring instruction of the running transaction.
//!
//! Paired instructions of the pool (`withdraw_with_introspection` with
//! `burn_lp`, `deposit_with_introspection` with `mint_lp`) each look at the
//! other half of the pair, as the instructions sysvar reports it, before they
//! move any token.
use vstd::prelude::*;
use vstd::bytes::*;
use vstd::slice::slice_subrange;
use crate::amm::error::AmmErrorCode;
use crate::amm::state::{AccountMeta, Instruction, Pubkey, ID};

verus! {

/// How many accounts the neighbouring instruction has to list.
#[derive(Debug, Clone, Copy, PartialEq, Eq)]
pub enum AccountsLen {
    Exactly(usize),
    AtLeast(usize),
}

impl AccountsLen {
    /// A list of `n` accounts satisfies the rule.
    pub open spec fn admits(self, n: nat) -> bool {
        match self {
            AccountsLen::Exactly(k) => n == k,
            AccountsLen::AtLeast(k) => n >= k,
        }
    }

    /// The least number of accounts that the rule admits.
    pub open spec fn least(self) -> nat {
        match self {
            AccountsLen::Exactly(k) => k as nat,
            AccountsLen::AtLeast(k) => k as nat,
        }
    }

    /// Whether `n` accounts satisfy the rule.
    pub fn admits_len(&self, n: usize) -> (r: bool)
        ensures
            r == self.admits(n as nat),
    {
        match self {
            AccountsLen::Exactly(k) => n == *k,
            AccountsLen::AtLeast(k) => n >= *k,
        }
    }
}

/// A neighbouring instruction, where it exists, holds at least the eight
/// bytes of a discriminator, so that the checks can compare one.
pub open spec fn readable(ix: Option<Instruction>) -> bool {
    ix matches Some(i) ==> i.data.len() >= 8
}

/// The outcome of checking the accounts of the neighbouring instruction: the
/// count must satisfy `rule`, and the first accounts must be `expected`, in order.
pub open spec fn spec_confirm_accounts(
    accounts: Seq<AccountMeta>,
    rule: AccountsLen,
    expected: Seq<Pubkey>,
) -> Result<(), AmmErrorCode> {
    if !rule.admits(accounts.len()) {
        Err(AmmErrorCode::InvalidAccountsLength)
    } else if exists|i: int| 0 <= i < expected.len() && #[trigger] accounts[i].pubkey@ != expected[i]@ {
        Err(AmmErrorCode::InvalidKey)
    } else {
        Ok(())
    }
}

/// The outcome of checking a neighbouring instruction `ix` (`None` where the
/// sysvar has no such instruction) against the discriminator `disc`, the data
/// length `data_len`, the accounts rule and the expected accounts, and the
/// LP amount `amount`, which the instruction carries right after its
/// discriminator, little endian. The checks come in this order.
pub open spec fn spec_check_sibling(
    ix: Option<Instruction>,
    disc: Seq<u8>,
    data_len: nat,
    rule: AccountsLen,
    expected: Seq<Pubkey>,
    amount: u64,
) -> Result<(), AmmErrorCode> {
    match ix {
        None => Err(AmmErrorCode::MissingPriorInstruction),
        Some(ix) => {
            if ix.data@.subrange(0, 8) != disc {
                Err(AmmErrorCode::UnexpectedDiscriminator)
            } else if ix.program_id@ != ID@ {
                Err(AmmErrorCode::InvalidProgramId)
            } else if ix.data@.len() != data_len {
                Err(AmmErrorCode::InvalidDataLength)
            } else if spec_confirm_accounts(ix.accounts@, rule, expected) is Err {
                spec_confirm_accounts(ix.accounts@, rule, expected)
            } else if spec_u64_from_le_bytes(ix.data@.subrange(8, 16)) != amount {
                Err(AmmErrorCode::InvalidAmount)
            } else {
                Ok(())
            }
        },
    }
}

/// Whether two addresses are equal.
pub fn keys_eq(a: &Pubkey, b: &Pubkey) -> (r: bool)
    ensures
        r == (a@ == b@),
{
    let mut i: usize = 0;
    while i < 32
        invariant
            i <= 32,
            forall|j: int| 0 <= j < i ==> a@[j] == b@[j],
        decreases 32 - i,
    {
        if a[i] != b[i] {
            return false;
        }
        i += 1;
    }
    assert(a@ =~= b@);
    true
}

/// Whether `data` starts with the discriminator `disc`.
pub fn starts_with_discriminator(data: &Vec<u8>, disc: &[u8; 8]) -> (r: bool)
    requires
        data.len() >= 8,
    ensures
        r == (data@.subrange(0, 8) == disc@),
{
    let mut i: usize = 0;
    while i < 8
        invariant
            i <= 8,
            data.len() >= 8,
            forall|j: int| 0 <= j < i ==> data@[j] == disc@[j],
        decreases 8 - i,
    {
        if data[i] != disc[i] {
            assert(data@.subrange(0, 8)[i as int] != disc@[i as int]);
            return false;
        }
        i += 1;
    }
    assert(data@.subrange(0, 8) =~= disc@);
    true
}

/// Checks the accounts of the neighbouring instruction.
pub fn confirm_accounts(accounts: &Vec<AccountMeta>, rule: AccountsLen, expected: &Vec<Pubkey>) -> (res:
    Result<(), AmmErrorCode>)
    requires
        expected.len() <= rule.least(),
    ensures
        res == spec_confirm_accounts(accounts@, rule, expected@),
{
    if !rule.admits_len(accounts.len()) {
        return Err(AmmErrorCode::InvalidAccountsLength);
    }
    let mut i: usize = 0;
    while i < expected.len()
        invariant
            i <= expected.len(),
            expected.len() <= accounts.len(),
            rule.admits(accounts.len() as nat),
            forall|j: int| 0 <= j < i ==> accounts@[j].pubkey@ == expected@[j]@,
        decreases expected.len() - i,
    {
        if !keys_eq(&accounts[i].pubkey, &expected[i]) {
            assert(accounts@[i as int].pubkey@ != expected@[i as int]@);
            return Err(AmmErrorCode::InvalidKey);
        }
        i += 1;
    }
    Ok(())
}

/// Checks a neighbouring instruction of the transaction; see
/// [`spec_check_sibling`].
pub fn check_sibling(
    ix: &Option<Instruction>,
    disc: &[u8; 8],
    data_len: usize,
    rule: AccountsLen,
    expected: &Vec<Pubkey>,
    amount: u64,
) -> (res: Result<(), AmmErrorCode>)
    requires
        16 <= data_len,
        expected.len() <= rule.least(),
        readable(*ix),
    ensures
        res == spec_check_sibling(*ix, disc@, data_len as nat, rule, expected@, amount),
{
    match ix {
        None => Err(AmmErrorCode::MissingPriorInstruction),
        Some(ix) => {
            if !starts_with_discriminator(&ix.data, disc) {
                return Err(AmmErrorCode::UnexpectedDiscriminator);
            }
            if !keys_eq(&ix.program_id, &ID) {
                return Err(AmmErrorCode::InvalidProgramId);
            }
            if ix.data.len() != data_len {
                return Err(AmmErrorCode::InvalidDataLength);
            }
            match confirm_accounts(&ix.accounts, rule, expected) {
                Err(e) => {
                    return Err(e);
                },
                Ok(()) => {},
            }
            let amount_bytes = slice_subrange(ix.data.as_slice(), 8, 16);
            let carried = u64_from_le_bytes(amount_bytes);
            if carried != amount {
                return Err(AmmErrorCode::InvalidAmount);
            }
            Ok(())
        },
    }
}

} // verus!
