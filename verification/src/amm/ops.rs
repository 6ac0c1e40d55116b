use vstd::prelude::*;
use crate::amm::error::AmmErrorCode;

verus! {

/// The token accounts an instruction of the pool touches, by their role.
#[derive(Debug, Clone, Copy, PartialEq, Eq)]
pub enum TokenAccountRole {
    /// The user's account of token X.
    UserX,
    /// The user's account of token Y.
    UserY,
    /// The user's account of LP tokens.
    UserLp,
    /// The pool's vault of token X, owned by the config account.
    VaultX,
    /// The pool's vault of token Y, owned by the config account.
    VaultY,
}

/// The mints an instruction of the pool touches.
#[derive(Debug, Clone, Copy, PartialEq, Eq)]
pub enum MintRole {
    X,
    Y,
    Lp,
}

/// Who authorises a token operation. `Config` means that the program signs
/// for its config account with the seeds `["config", seed (little endian), config_bump]`.
#[derive(Debug, Clone, Copy, PartialEq, Eq)]
pub enum AuthorityRole {
    User,
    Config,
}

/// Which token program carries out the operation.
#[derive(Debug, Clone, Copy, PartialEq, Eq)]
pub enum TokenProgramRole {
    /// The token program of mint X.
    X,
    /// The token program of mint Y.
    Y,
    /// The token program of the LP mint.
    Lp,
}

/// A call into a token program that an instruction of the pool asks for.
#[derive(Debug, Clone, Copy, PartialEq, Eq)]
pub enum TokenOp {
    TransferChecked {
        program: TokenProgramRole,
        from: TokenAccountRole,
        to: TokenAccountRole,
        mint: MintRole,
        authority: AuthorityRole,
        amount: u64,
        decimals: u8,
    },
    MintTo {
        program: TokenProgramRole,
        mint: MintRole,
        to: TokenAccountRole,
        authority: AuthorityRole,
        amount: u64,
    },
    Burn {
        program: TokenProgramRole,
        mint: MintRole,
        from: TokenAccountRole,
        authority: AuthorityRole,
        amount: u64,
    },
    BurnChecked {
        program: TokenProgramRole,
        mint: MintRole,
        from: TokenAccountRole,
        authority: AuthorityRole,
        amount: u64,
        decimals: u8,
    },
}

/// `res`, an executable outcome, is the mathematical outcome `expected`.
pub open spec fn yields(
    res: Result<Vec<TokenOp>, AmmErrorCode>,
    expected: Result<Seq<TokenOp>, AmmErrorCode>,
) -> bool {
    match res {
        Ok(ops) => expected == Ok::<Seq<TokenOp>, AmmErrorCode>(ops@),
        Err(e) => expected == Err::<Seq<TokenOp>, AmmErrorCode>(e),
    }
}

/// How much of token X (`is_x`) or token Y the operation moves from an
/// account of the user into the matching vault.
pub open spec fn paid_in(op: TokenOp, is_x: bool) -> int {
    match op {
        TokenOp::TransferChecked { from, to, amount, .. } => if is_x && from == TokenAccountRole::UserX
            && to == TokenAccountRole::VaultX {
            amount as int
        } else if !is_x && from == TokenAccountRole::UserY && to == TokenAccountRole::VaultY {
            amount as int
        } else {
            0
        },
        _ => 0,
    }
}

/// How much of token X (`is_x`) or token Y the operation moves out of the
/// matching vault to the user.
pub open spec fn paid_out(op: TokenOp, is_x: bool) -> int {
    match op {
        TokenOp::TransferChecked { from, to, amount, .. } => if is_x && from == TokenAccountRole::VaultX
            && to == TokenAccountRole::UserX {
            amount as int
        } else if !is_x && from == TokenAccountRole::VaultY && to == TokenAccountRole::UserY {
            amount as int
        } else {
            0
        },
        _ => 0,
    }
}

/// The net change of the LP supply that the operation causes.
pub open spec fn lp_minted(op: TokenOp) -> int {
    match op {
        TokenOp::MintTo { mint: MintRole::Lp, amount, .. } => amount as int,
        TokenOp::Burn { mint: MintRole::Lp, amount, .. } => -(amount as int),
        TokenOp::BurnChecked { mint: MintRole::Lp, amount, .. } => -(amount as int),
        _ => 0,
    }
}

/// Sum of `f` over a sequence of operations.
pub open spec fn total(ops: Seq<TokenOp>, f: spec_fn(TokenOp) -> int) -> int
    decreases ops.len(),
{
    if ops.len() == 0 {
        0
    } else {
        total(ops.drop_last(), f) + f(ops.last())
    }
}

/// The account an operation takes tokens from (`None` for minting).
pub open spec fn source(op: TokenOp) -> Option<TokenAccountRole> {
    match op {
        TokenOp::TransferChecked { from, .. } => Some(from),
        TokenOp::MintTo { .. } => None,
        TokenOp::Burn { from, .. } => Some(from),
        TokenOp::BurnChecked { from, .. } => Some(from),
    }
}

/// The account an operation puts tokens into (`None` for burning).
pub open spec fn destination(op: TokenOp) -> Option<TokenAccountRole> {
    match op {
        TokenOp::TransferChecked { to, .. } => Some(to),
        TokenOp::MintTo { to, .. } => Some(to),
        TokenOp::Burn { .. } => None,
        TokenOp::BurnChecked { .. } => None,
    }
}

/// How many tokens an operation moves, mints or burns.
pub open spec fn moved(op: TokenOp) -> u64 {
    match op {
        TokenOp::TransferChecked { amount, .. } => amount,
        TokenOp::MintTo { amount, .. } => amount,
        TokenOp::Burn { amount, .. } => amount,
        TokenOp::BurnChecked { amount, .. } => amount,
    }
}

/// Who authorises an operation.
pub open spec fn authority(op: TokenOp) -> AuthorityRole {
    match op {
        TokenOp::TransferChecked { authority, .. } => authority,
        TokenOp::MintTo { authority, .. } => authority,
        TokenOp::Burn { authority, .. } => authority,
        TokenOp::BurnChecked { authority, .. } => authority,
    }
}

/// The mint whose tokens an account holds.
pub open spec fn mint_of(a: TokenAccountRole) -> MintRole {
    match a {
        TokenAccountRole::UserX => MintRole::X,
        TokenAccountRole::VaultX => MintRole::X,
        TokenAccountRole::UserY => MintRole::Y,
        TokenAccountRole::VaultY => MintRole::Y,
        TokenAccountRole::UserLp => MintRole::Lp,
    }
}

/// The token program that owns a mint.
pub open spec fn program_of(m: MintRole) -> TokenProgramRole {
    match m {
        MintRole::X => TokenProgramRole::X,
        MintRole::Y => TokenProgramRole::Y,
        MintRole::Lp => TokenProgramRole::Lp,
    }
}

/// The decimals of a mint, given those of X, Y and the LP mint.
pub open spec fn decimals_of(m: MintRole, dx: u8, dy: u8, dlp: u8) -> u8 {
    match m {
        MintRole::X => dx,
        MintRole::Y => dy,
        MintRole::Lp => dlp,
    }
}

/// An operation is coherent: every account it touches holds the mint it
/// names, the call goes to that mint's token program, a transfer goes between
/// two different accounts, and checked operations state that mint's decimals.
pub open spec fn coherent(op: TokenOp, dx: u8, dy: u8, dlp: u8) -> bool {
    match op {
        TokenOp::TransferChecked { program, from, to, mint, decimals, .. } => {
            &&& mint_of(from) == mint
            &&& mint_of(to) == mint
            &&& from != to
            &&& program == program_of(mint)
            &&& decimals == decimals_of(mint, dx, dy, dlp)
        },
        TokenOp::MintTo { program, mint, to, .. } => mint_of(to) == mint && program == program_of(mint),
        TokenOp::Burn { program, mint, from, .. } => mint_of(from) == mint && program == program_of(mint),
        TokenOp::BurnChecked { program, mint, from, decimals, .. } => {
            &&& mint_of(from) == mint
            &&& program == program_of(mint)
            &&& decimals == decimals_of(mint, dx, dy, dlp)
        },
    }
}

/// The user's account of token X (`is_x`) or Y.
pub open spec fn user_account(is_x: bool) -> TokenAccountRole {
    if is_x {
        TokenAccountRole::UserX
    } else {
        TokenAccountRole::UserY
    }
}

/// The pool's vault of token X (`is_x`) or Y.
pub open spec fn vault(is_x: bool) -> TokenAccountRole {
    if is_x {
        TokenAccountRole::VaultX
    } else {
        TokenAccountRole::VaultY
    }
}

/// The operation moves `amount` from `from` to `to`, authorised by `by`.
pub open spec fn moves(op: TokenOp, from: TokenAccountRole, to: TokenAccountRole, amount: u64, by: AuthorityRole) -> bool {
    &&& op is TransferChecked
    &&& source(op) == Some(from)
    &&& destination(op) == Some(to)
    &&& moved(op) == amount
    &&& authority(op) == by
}

} // verus!
