//! Properties of the pool that span its instructions.
use vstd::prelude::*;
use vstd::bytes::*;
use crate::amm::burn_lp::BurnLp;
use crate::amm::deposit::Deposit;
use crate::amm::introspection::{spec_check_sibling, spec_confirm_accounts, AccountsLen};
use crate::amm::mint_lp::MintLp;
use crate::amm::error::AmmErrorCode;
use crate::amm::ops::{
    authority, coherent, destination, lp_minted, moved, moves, paid_in, paid_out, source, total, user_account,
    vault, AuthorityRole, TokenAccountRole, TokenOp,
};
use crate::amm::state::{
    Instruction, SwapResult, XYAmounts, BURN_LP_DISCRIMINATOR, DEPOSIT_WITH_INTROSPECTION_DISCRIMINATOR, ID,
    WITHDRAW_WITH_INTROSPECTION_DISCRIMINATOR,
};
use crate::amm::swap::Swap;
use crate::amm::withdraw::Withdraw;
use crate::amm::withdraw_with_introspection::WithdrawWithIntrospection;

verus! {

proof fn lemma_total_one(a: TokenOp, f: spec_fn(TokenOp) -> int)
    ensures
        total(seq![a], f) == f(a),
{
    assert(seq![a].drop_last() =~= Seq::<TokenOp>::empty());
    assert(total(Seq::<TokenOp>::empty(), f) == 0);
}

proof fn lemma_total_two(a: TokenOp, b: TokenOp, f: spec_fn(TokenOp) -> int)
    ensures
        total(seq![a, b], f) == f(a) + f(b),
{
    assert(seq![a, b].drop_last() =~= seq![a]);
    lemma_total_one(a, f);
}

proof fn lemma_total_three(a: TokenOp, b: TokenOp, c: TokenOp, f: spec_fn(TokenOp) -> int)
    ensures
        total(seq![a, b, c], f) == f(a) + f(b) + f(c),
{
    assert(seq![a, b, c].drop_last() =~= seq![a, b]);
    lemma_total_two(a, b, f);
}

/// A deposit that goes through takes at most `max_x` of X and at most `max_y`
/// of Y from the user, pays nothing out, and mints exactly `amount` LP tokens.
pub proof fn lemma_deposit_within_max(
    d: Deposit,
    amount: u64,
    max_x: u64,
    max_y: u64,
    quote: Option<XYAmounts>,
)
    requires
        d.spec_deposit(amount, max_x, max_y, quote) is Ok,
    ensures
        ({
            let ops = d.spec_deposit(amount, max_x, max_y, quote)->Ok_0;
            &&& total(ops, |op: TokenOp| paid_in(op, true)) <= max_x
            &&& total(ops, |op: TokenOp| paid_in(op, false)) <= max_y
            &&& total(ops, |op: TokenOp| paid_out(op, true)) == 0
            &&& total(ops, |op: TokenOp| paid_out(op, false)) == 0
            &&& total(ops, |op: TokenOp| lp_minted(op)) == amount
        }),
{
    let ops = d.spec_deposit(amount, max_x, max_y, quote)->Ok_0;
    let a = ops[0];
    let b = ops[1];
    let c = ops[2];
    assert(ops == seq![a, b, c]);
    lemma_total_three(a, b, c, |op: TokenOp| paid_in(op, true));
    lemma_total_three(a, b, c, |op: TokenOp| paid_in(op, false));
    lemma_total_three(a, b, c, |op: TokenOp| paid_out(op, true));
    lemma_total_three(a, b, c, |op: TokenOp| paid_out(op, false));
    lemma_total_three(a, b, c, |op: TokenOp| lp_minted(op));
}

/// A withdrawal that goes through burns exactly `amount` LP tokens, pays out
/// at least `min_x` of X and at least `min_y` of Y, and takes nothing in.
pub proof fn lemma_withdraw_at_least_min(w: Withdraw, amount: u64, min_x: u64, min_y: u64, quote: XYAmounts)
    requires
        w.spec_withdraw(amount, min_x, min_y, quote) is Ok,
    ensures
        ({
            let ops = w.spec_withdraw(amount, min_x, min_y, quote)->Ok_0;
            &&& total(ops, |op: TokenOp| paid_out(op, true)) >= min_x
            &&& total(ops, |op: TokenOp| paid_out(op, false)) >= min_y
            &&& total(ops, |op: TokenOp| paid_in(op, true)) == 0
            &&& total(ops, |op: TokenOp| paid_in(op, false)) == 0
            &&& total(ops, |op: TokenOp| lp_minted(op)) == -amount
        }),
{
    let ops = w.spec_withdraw(amount, min_x, min_y, quote)->Ok_0;
    let a = ops[0];
    let b = ops[1];
    let c = ops[2];
    assert(ops == seq![a, b, c]);
    lemma_total_three(a, b, c, |op: TokenOp| paid_in(op, true));
    lemma_total_three(a, b, c, |op: TokenOp| paid_in(op, false));
    lemma_total_three(a, b, c, |op: TokenOp| paid_out(op, true));
    lemma_total_three(a, b, c, |op: TokenOp| paid_out(op, false));
    lemma_total_three(a, b, c, |op: TokenOp| lp_minted(op));
}

/// A withdrawal with introspection that goes through pays out at least
/// `min_x` of X and at least `min_y` of Y, takes nothing in, and leaves the
/// LP supply to the `burn_lp` that follows it.
pub proof fn lemma_withdraw_with_introspection_at_least_min(
    w: WithdrawWithIntrospection,
    amount: u64,
    min_x: u64,
    min_y: u64,
    quote: XYAmounts,
)
    requires
        w.spec_withdraw(amount, min_x, min_y, quote) is Ok,
    ensures
        ({
            let ops = w.spec_withdraw(amount, min_x, min_y, quote)->Ok_0;
            &&& total(ops, |op: TokenOp| paid_out(op, true)) >= min_x
            &&& total(ops, |op: TokenOp| paid_out(op, false)) >= min_y
            &&& total(ops, |op: TokenOp| paid_in(op, true)) == 0
            &&& total(ops, |op: TokenOp| paid_in(op, false)) == 0
            &&& total(ops, |op: TokenOp| lp_minted(op)) == 0
        }),
{
    let ops = w.spec_withdraw(amount, min_x, min_y, quote)->Ok_0;
    let a = ops[0];
    let b = ops[1];
    assert(ops == seq![a, b]);
    lemma_total_two(a, b, |op: TokenOp| paid_in(op, true));
    lemma_total_two(a, b, |op: TokenOp| paid_in(op, false));
    lemma_total_two(a, b, |op: TokenOp| paid_out(op, true));
    lemma_total_two(a, b, |op: TokenOp| paid_out(op, false));
    lemma_total_two(a, b, |op: TokenOp| lp_minted(op));
}

/// A swap that goes through takes exactly the curve's `deposit` of the token
/// sold and pays out exactly the curve's `withdraw` of the other token, and
/// nothing else.
pub proof fn lemma_swap_moves_quote(s: Swap, is_x: bool, amount: u64, r: SwapResult)
    requires
        s.spec_swap(is_x, amount, Some(r)) is Ok,
    ensures
        ({
            let ops = s.spec_swap(is_x, amount, Some(r))->Ok_0;
            &&& total(ops, |op: TokenOp| paid_in(op, is_x)) == r.deposit
            &&& total(ops, |op: TokenOp| paid_out(op, !is_x)) == r.withdraw
            &&& total(ops, |op: TokenOp| paid_in(op, !is_x)) == 0
            &&& total(ops, |op: TokenOp| paid_out(op, is_x)) == 0
            &&& total(ops, |op: TokenOp| lp_minted(op)) == 0
        }),
{
    let ops = s.spec_swap(is_x, amount, Some(r))->Ok_0;
    let a = ops[0];
    let b = ops[1];
    assert(ops == seq![a, b]);
    lemma_total_two(a, b, |op: TokenOp| paid_in(op, is_x));
    lemma_total_two(a, b, |op: TokenOp| paid_out(op, !is_x));
    lemma_total_two(a, b, |op: TokenOp| paid_in(op, !is_x));
    lemma_total_two(a, b, |op: TokenOp| paid_out(op, is_x));
    lemma_total_two(a, b, |op: TokenOp| lp_minted(op));
}

/// A locked pool refuses every deposit and every withdrawal, whatever the
/// curve would quote, and refuses to mint or burn LP tokens.
pub proof fn lemma_locked_pool_refuses(
    d: Deposit,
    w: Withdraw,
    wi: WithdrawWithIntrospection,
    b: BurnLp,
    m: MintLp,
    amount: u64,
    lo: u64,
    hi: u64,
    quote: XYAmounts,
)
    requires
        d.config.locked,
        w.config.locked,
        wi.config.locked,
        b.config.locked,
        m.config.locked,
    ensures
        d.spec_deposit(amount, hi, hi, Some(quote)) is Err,
        d.spec_deposit(amount, hi, hi, None) is Err,
        w.spec_withdraw(amount, lo, lo, quote) is Err,
        wi.spec_withdraw(amount, lo, lo, quote) is Err,
        b.spec_burn_lp(amount) is Err,
        m.spec_mint_lp(amount) is Err,
{
}

/// No instruction of the pool moves tokens for a zero amount.
pub proof fn lemma_zero_amount_refused(
    d: Deposit,
    s: Swap,
    w: Withdraw,
    wi: WithdrawWithIntrospection,
    b: BurnLp,
    m: MintLp,
    is_x: bool,
    lo: u64,
    hi: u64,
    quote: XYAmounts,
    r: SwapResult,
)
    ensures
        d.spec_deposit(0, hi, hi, Some(quote)) is Err,
        d.spec_deposit(0, hi, hi, None) is Err,
        s.spec_swap(is_x, 0, Some(r)) is Err,
        w.spec_withdraw(0, lo, lo, quote) is Err,
        wi.spec_withdraw(0, lo, lo, quote) is Err,
        b.spec_burn_lp(0) is Err,
        m.spec_mint_lp(0) is Err,
{
}

/// Where a neighbouring instruction that passes the checks carries the
/// encoding of `carried` right after its discriminator, the amount checked
/// against is `carried`.
proof fn lemma_checked_amount_is_carried(
    ix: Instruction,
    disc: Seq<u8>,
    data_len: nat,
    rule: AccountsLen,
    expected: Seq<crate::amm::state::Pubkey>,
    amount: u64,
    carried: u64,
    rest: Seq<u8>,
)
    requires
        disc.len() == 8,
        ix.data@ == disc + spec_u64_to_le_bytes(carried) + rest,
        spec_check_sibling(Some(ix), disc, data_len, rule, expected, amount) is Ok,
    ensures
        amount == carried,
{
    lemma_auto_spec_u64_to_from_le_bytes();
    let enc = spec_u64_to_le_bytes(carried);
    assert(ix.data@.subrange(8, 16) =~= enc);
}

/// A neighbouring instruction of this program that starts with `disc`,
/// followed by the encoding of `amount`, that has `data_len` bytes and lists
/// the expected accounts first, passes the checks.
proof fn lemma_encoded_instruction_passes(
    ix: Instruction,
    disc: Seq<u8>,
    data_len: nat,
    rule: AccountsLen,
    expected: Seq<crate::amm::state::Pubkey>,
    amount: u64,
    rest: Seq<u8>,
)
    requires
        disc.len() == 8,
        ix.program_id@ == ID@,
        ix.data@ == disc + spec_u64_to_le_bytes(amount) + rest,
        ix.data@.len() == data_len,
        rule.admits(ix.accounts@.len()),
        expected.len() <= ix.accounts@.len(),
        forall|i: int| 0 <= i < expected.len() ==> #[trigger] ix.accounts@[i].pubkey@ == expected[i]@,
    ensures
        spec_check_sibling(Some(ix), disc, data_len, rule, expected, amount) is Ok,
{
    lemma_auto_spec_u64_to_from_le_bytes();
    let enc = spec_u64_to_le_bytes(amount);
    assert(ix.data@.subrange(0, 8) =~= disc);
    assert(ix.data@.subrange(8, 16) =~= enc);
    assert(spec_confirm_accounts(ix.accounts@, rule, expected) is Ok);
}

/// The `burn_lp` instruction that a withdrawal with introspection accepts as
/// its successor burns exactly the LP amount the withdrawal paid out for:
/// where that instruction's data is its discriminator followed by its own
/// argument `burned`, `burned` is the withdrawn `amount`.
pub proof fn lemma_withdrawal_is_burnt_in_full(w: WithdrawWithIntrospection, amount: u64, burned: u64)
    requires
        w.spec_verify_burn(amount) is Ok,
        w.next_instruction matches Some(ix) && ix.data@ == BURN_LP_DISCRIMINATOR@
            + spec_u64_to_le_bytes(burned),
    ensures
        amount == burned,
{
    let ix = w.next_instruction->Some_0;
    assert(ix.data@ == BURN_LP_DISCRIMINATOR@ + spec_u64_to_le_bytes(burned) + Seq::<u8>::empty());
    lemma_checked_amount_is_carried(
        ix,
        BURN_LP_DISCRIMINATOR@,
        16,
        AccountsLen::Exactly(8),
        w.burn_accounts(),
        amount,
        burned,
        Seq::<u8>::empty(),
    );
}

/// A `burn_lp` burns exactly the LP amount of the withdrawal with
/// introspection before it: where that instruction's data is its
/// discriminator followed by its arguments `withdrawn`, `min_x` and `min_y`,
/// the burnt `amount` is `withdrawn`.
pub proof fn lemma_burn_matches_withdrawal(b: BurnLp, amount: u64, withdrawn: u64, min_x: u64, min_y: u64)
    requires
        b.spec_verify_withdraw(amount) is Ok,
        b.prior_instruction matches Some(ix) && ix.data@ == WITHDRAW_WITH_INTROSPECTION_DISCRIMINATOR@
            + spec_u64_to_le_bytes(withdrawn) + spec_u64_to_le_bytes(min_x) + spec_u64_to_le_bytes(
            min_y,
        ),
    ensures
        amount == withdrawn,
{
    let ix = b.prior_instruction->Some_0;
    let rest = spec_u64_to_le_bytes(min_x) + spec_u64_to_le_bytes(min_y);
    assert(ix.data@ =~= WITHDRAW_WITH_INTROSPECTION_DISCRIMINATOR@ + spec_u64_to_le_bytes(withdrawn) + rest);
    lemma_checked_amount_is_carried(
        ix,
        WITHDRAW_WITH_INTROSPECTION_DISCRIMINATOR@,
        32,
        AccountsLen::Exactly(14),
        b.withdraw_accounts(),
        amount,
        withdrawn,
        rest,
    );
}

/// A `mint_lp` mints exactly the LP amount of the deposit with introspection
/// before it: where that instruction's data is its discriminator followed by
/// its arguments `deposited`, `max_x` and `max_y`, the minted `amount` is
/// `deposited`.
pub proof fn lemma_mint_matches_deposit(m: MintLp, amount: u64, deposited: u64, max_x: u64, max_y: u64)
    requires
        m.spec_verify_deposit(amount) is Ok,
        m.prior_instruction matches Some(ix) && ix.data@ == DEPOSIT_WITH_INTROSPECTION_DISCRIMINATOR@
            + spec_u64_to_le_bytes(deposited) + spec_u64_to_le_bytes(max_x) + spec_u64_to_le_bytes(
            max_y,
        ),
    ensures
        amount == deposited,
{
    let ix = m.prior_instruction->Some_0;
    let rest = spec_u64_to_le_bytes(max_x) + spec_u64_to_le_bytes(max_y);
    assert(ix.data@ =~= DEPOSIT_WITH_INTROSPECTION_DISCRIMINATOR@ + spec_u64_to_le_bytes(deposited) + rest);
    lemma_checked_amount_is_carried(
        ix,
        DEPOSIT_WITH_INTROSPECTION_DISCRIMINATOR@,
        32,
        AccountsLen::AtLeast(12),
        m.deposit_accounts(),
        amount,
        deposited,
        rest,
    );
}

/// An honest pair passes both checks: a withdrawal with introspection for
/// `amount` followed by a `burn_lp` for the same amount, both addressed to
/// this program, with the accounts each check expects, are accepted by
/// `withdraw_with_introseption` and by `burn_lp`.
pub proof fn lemma_honest_withdraw_burn_pair_accepted(
    w: WithdrawWithIntrospection,
    b: BurnLp,
    amount: u64,
    min_x: u64,
    min_y: u64,
)
    requires
        w.next_instruction matches Some(ix) && {
            &&& ix.program_id@ == ID@
            &&& ix.data@ == BURN_LP_DISCRIMINATOR@ + spec_u64_to_le_bytes(amount)
            &&& ix.accounts@.len() == 8
            &&& forall|i: int| 0 <= i < 3 ==> #[trigger] ix.accounts@[i].pubkey@ == w.burn_accounts()[i]@
        },
        b.prior_instruction matches Some(ix) && {
            &&& ix.program_id@ == ID@
            &&& ix.data@ == WITHDRAW_WITH_INTROSPECTION_DISCRIMINATOR@ + spec_u64_to_le_bytes(amount)
                + spec_u64_to_le_bytes(min_x) + spec_u64_to_le_bytes(min_y)
            &&& ix.accounts@.len() == 14
            &&& forall|i: int| 0 <= i < 5 ==> #[trigger] ix.accounts@[i].pubkey@ == b.withdraw_accounts()[i]@
        },
    ensures
        w.spec_verify_burn(amount) is Ok,
        b.spec_verify_withdraw(amount) is Ok,
{
    lemma_auto_spec_u64_to_from_le_bytes();
    let wix = w.next_instruction->Some_0;
    assert(wix.data@ == BURN_LP_DISCRIMINATOR@ + spec_u64_to_le_bytes(amount) + Seq::<u8>::empty());
    lemma_encoded_instruction_passes(
        wix,
        BURN_LP_DISCRIMINATOR@,
        16,
        AccountsLen::Exactly(8),
        w.burn_accounts(),
        amount,
        Seq::<u8>::empty(),
    );
    let bix = b.prior_instruction->Some_0;
    let rest = spec_u64_to_le_bytes(min_x) + spec_u64_to_le_bytes(min_y);
    assert(bix.data@ =~= WITHDRAW_WITH_INTROSPECTION_DISCRIMINATOR@ + spec_u64_to_le_bytes(amount) + rest);
    lemma_encoded_instruction_passes(
        bix,
        WITHDRAW_WITH_INTROSPECTION_DISCRIMINATOR@,
        32,
        AccountsLen::Exactly(14),
        b.withdraw_accounts(),
        amount,
        rest,
    );
}

/// A `mint_lp` accepts the honest deposit with introspection before it: an
/// instruction of this program that carries the discriminator of
/// `deposit_with_introspection` followed by the same `amount`, `max_x` and
/// `max_y`, and lists at least 12 accounts that start with the user, both
/// mints and the config.
pub proof fn lemma_honest_deposit_accepted_by_mint(m: MintLp, amount: u64, max_x: u64, max_y: u64)
    requires
        m.prior_instruction matches Some(ix) && {
            &&& ix.program_id@ == ID@
            &&& ix.data@ == DEPOSIT_WITH_INTROSPECTION_DISCRIMINATOR@ + spec_u64_to_le_bytes(amount)
                + spec_u64_to_le_bytes(max_x) + spec_u64_to_le_bytes(max_y)
            &&& ix.accounts@.len() >= 12
            &&& forall|i: int| 0 <= i < 4 ==> #[trigger] ix.accounts@[i].pubkey@ == m.deposit_accounts()[i]@
        },
    ensures
        m.spec_verify_deposit(amount) is Ok,
{
    lemma_auto_spec_u64_to_from_le_bytes();
    let ix = m.prior_instruction->Some_0;
    let rest = spec_u64_to_le_bytes(max_x) + spec_u64_to_le_bytes(max_y);
    assert(ix.data@ =~= DEPOSIT_WITH_INTROSPECTION_DISCRIMINATOR@ + spec_u64_to_le_bytes(amount) + rest);
    lemma_encoded_instruction_passes(
        ix,
        DEPOSIT_WITH_INTROSPECTION_DISCRIMINATOR@,
        32,
        AccountsLen::AtLeast(12),
        m.deposit_accounts(),
        amount,
        rest,
    );
}

/// Deposit into a pool that already holds liquidity: it goes through exactly
/// when the pool is unlocked, the LP amount is not zero and the curve's quote
/// is within the user's ceilings; every refusal is `CustomError`. Then the
/// user pays exactly the quote, X first and then Y, from its own accounts into
/// the vaults, and afterwards receives exactly `amount` freshly minted LP
/// tokens, minted under the config's authority.
pub proof fn lemma_deposit_pays_quote(d: Deposit, amount: u64, max_x: u64, max_y: u64, quote: XYAmounts)
    requires
        !d.pool_is_empty(),
    ensures
        d.spec_deposit(amount, max_x, max_y, Some(quote)) is Ok <==> (!d.config.locked && amount > 0
            && quote.x <= max_x && quote.y <= max_y),
        d.spec_deposit(amount, max_x, max_y, Some(quote)) matches Err(e) ==> e == AmmErrorCode::CustomError,
        d.spec_deposit(amount, max_x, max_y, Some(quote)) matches Ok(ops) ==> {
            &&& ops.len() == 3
            &&& moves(ops[0], TokenAccountRole::UserX, TokenAccountRole::VaultX, quote.x, AuthorityRole::User)
            &&& moves(ops[1], TokenAccountRole::UserY, TokenAccountRole::VaultY, quote.y, AuthorityRole::User)
            &&& ops[2] is MintTo && destination(ops[2]) == Some(TokenAccountRole::UserLp)
            &&& moved(ops[2]) == amount && authority(ops[2]) == AuthorityRole::Config
            &&& forall|i: int| 0 <= i < 3 ==> coherent(#[trigger] ops[i], d.mint_x_decimals, d.mint_y_decimals, 0)
            &&& total(ops, |op: TokenOp| paid_in(op, true)) == quote.x
            &&& total(ops, |op: TokenOp| paid_in(op, false)) == quote.y
            &&& total(ops, |op: TokenOp| lp_minted(op)) == amount
        },
{
    if d.spec_deposit(amount, max_x, max_y, Some(quote)) is Ok {
        let ops = d.spec_deposit(amount, max_x, max_y, Some(quote))->Ok_0;
        lemma_total_three(ops[0], ops[1], ops[2], |op: TokenOp| paid_in(op, true));
        lemma_total_three(ops[0], ops[1], ops[2], |op: TokenOp| paid_in(op, false));
        lemma_total_three(ops[0], ops[1], ops[2], |op: TokenOp| lp_minted(op));
        assert(ops == seq![ops[0], ops[1], ops[2]]);
    }
}

/// The first deposit into an empty pool sets its price: it goes through
/// exactly when the pool is unlocked and the LP amount is not zero, and then
/// the user pays exactly the amounts it offered, X then Y, and receives
/// exactly `amount` LP tokens.
pub proof fn lemma_first_deposit_pays_offer(d: Deposit, amount: u64, max_x: u64, max_y: u64, quote: Option<XYAmounts>)
    requires
        d.pool_is_empty(),
    ensures
        d.spec_deposit(amount, max_x, max_y, quote) is Ok <==> (!d.config.locked && amount > 0),
        d.spec_deposit(amount, max_x, max_y, quote) matches Err(e) ==> e == AmmErrorCode::CustomError,
        d.spec_deposit(amount, max_x, max_y, quote) matches Ok(ops) ==> {
            &&& ops.len() == 3
            &&& moves(ops[0], TokenAccountRole::UserX, TokenAccountRole::VaultX, max_x, AuthorityRole::User)
            &&& moves(ops[1], TokenAccountRole::UserY, TokenAccountRole::VaultY, max_y, AuthorityRole::User)
            &&& ops[2] is MintTo && destination(ops[2]) == Some(TokenAccountRole::UserLp)
            &&& moved(ops[2]) == amount && authority(ops[2]) == AuthorityRole::Config
            &&& forall|i: int| 0 <= i < 3 ==> coherent(#[trigger] ops[i], d.mint_x_decimals, d.mint_y_decimals, 0)
        },
{
}

/// Withdrawal: it goes through exactly when the pool is unlocked, the LP
/// amount is not zero and the curve's quote meets the user's floors; every
/// refusal is `CustomError`. Then the user's `amount` LP tokens are burnt
/// first, under the user's authority, and the vaults pay out exactly the
/// quote, X then Y, under the config's authority.
pub proof fn lemma_withdraw_pays_quote(w: Withdraw, amount: u64, min_x: u64, min_y: u64, quote: XYAmounts)
    ensures
        w.spec_withdraw(amount, min_x, min_y, quote) is Ok <==> (!w.config.locked && amount > 0 && quote.x
            >= min_x && quote.y >= min_y),
        w.spec_withdraw(amount, min_x, min_y, quote) matches Err(e) ==> e == AmmErrorCode::CustomError,
        w.spec_withdraw(amount, min_x, min_y, quote) matches Ok(ops) ==> {
            &&& ops.len() == 3
            &&& ops[0] is BurnChecked && source(ops[0]) == Some(TokenAccountRole::UserLp)
            &&& moved(ops[0]) == amount && authority(ops[0]) == AuthorityRole::User
            &&& moves(ops[1], TokenAccountRole::VaultX, TokenAccountRole::UserX, quote.x, AuthorityRole::Config)
            &&& moves(ops[2], TokenAccountRole::VaultY, TokenAccountRole::UserY, quote.y, AuthorityRole::Config)
            &&& forall|i: int| 0 <= i < 3 ==> coherent(#[trigger] ops[i], w.mint_x_decimals, w.mint_y_decimals, w.mint_lp_decimals)
            &&& total(ops, |op: TokenOp| paid_out(op, true)) == quote.x
            &&& total(ops, |op: TokenOp| paid_out(op, false)) == quote.y
            &&& total(ops, |op: TokenOp| lp_minted(op)) == -amount
        },
{
    if w.spec_withdraw(amount, min_x, min_y, quote) is Ok {
        let ops = w.spec_withdraw(amount, min_x, min_y, quote)->Ok_0;
        lemma_total_three(ops[0], ops[1], ops[2], |op: TokenOp| paid_out(op, true));
        lemma_total_three(ops[0], ops[1], ops[2], |op: TokenOp| paid_out(op, false));
        lemma_total_three(ops[0], ops[1], ops[2], |op: TokenOp| lp_minted(op));
        assert(ops == seq![ops[0], ops[1], ops[2]]);
    }
}

/// Withdrawal with introspection: it goes through exactly when the LP amount
/// is not zero, the pool is unlocked, the next instruction burns that amount
/// and the curve's quote meets the user's floors. A zero amount and a quote
/// below a floor are `InvalidAmount`, a locked pool `PoolLocked`. Then the
/// vaults pay out exactly the quote, X then Y, and nothing is burnt here.
pub proof fn lemma_withdraw_with_introspection_pays_quote(
    w: WithdrawWithIntrospection,
    amount: u64,
    min_x: u64,
    min_y: u64,
    quote: XYAmounts,
)
    ensures
        w.spec_withdraw(amount, min_x, min_y, quote) is Ok <==> (amount > 0 && !w.config.locked
            && w.spec_verify_burn(amount) is Ok && quote.x >= min_x && quote.y >= min_y),
        amount == 0 ==> w.spec_withdraw(amount, min_x, min_y, quote) == Err::<Seq<TokenOp>, AmmErrorCode>(
            AmmErrorCode::InvalidAmount,
        ),
        amount > 0 && w.config.locked ==> w.spec_withdraw(amount, min_x, min_y, quote) == Err::<
            Seq<TokenOp>,
            AmmErrorCode,
        >(AmmErrorCode::PoolLocked),
        amount > 0 && !w.config.locked && w.spec_verify_burn(amount) is Ok && !(quote.x >= min_x && quote.y
            >= min_y) ==> w.spec_withdraw(amount, min_x, min_y, quote) == Err::<Seq<TokenOp>, AmmErrorCode>(
            AmmErrorCode::InvalidAmount,
        ),
        w.spec_withdraw(amount, min_x, min_y, quote) matches Ok(ops) ==> {
            &&& ops.len() == 2
            &&& moves(ops[0], TokenAccountRole::VaultX, TokenAccountRole::UserX, quote.x, AuthorityRole::User)
            &&& moves(ops[1], TokenAccountRole::VaultY, TokenAccountRole::UserY, quote.y, AuthorityRole::User)
            &&& forall|i: int| 0 <= i < 2 ==> coherent(#[trigger] ops[i], w.mint_x_decimals, w.mint_y_decimals, 0)
            &&& total(ops, |op: TokenOp| paid_out(op, true)) == quote.x
            &&& total(ops, |op: TokenOp| paid_out(op, false)) == quote.y
            &&& total(ops, |op: TokenOp| lp_minted(op)) == 0
        },
{
    if w.spec_withdraw(amount, min_x, min_y, quote) is Ok {
        let ops = w.spec_withdraw(amount, min_x, min_y, quote)->Ok_0;
        lemma_total_two(ops[0], ops[1], |op: TokenOp| paid_out(op, true));
        lemma_total_two(ops[0], ops[1], |op: TokenOp| paid_out(op, false));
        lemma_total_two(ops[0], ops[1], |op: TokenOp| lp_minted(op));
        assert(ops == seq![ops[0], ops[1]]);
    }
}

/// Swap: only a zero amount or the curve's refusal stops it, both with
/// `CustomError`. Whatever the curve answers, the user pays exactly its
/// `deposit` of the token sold from its own account into that token's vault,
/// and the other token's vault pays exactly its `withdraw` to the user under
/// the config's authority.
pub proof fn lemma_swap_follows_curve(s: Swap, is_x: bool, amount: u64, outcome: Option<SwapResult>)
    ensures
        s.spec_swap(is_x, amount, outcome) is Ok <==> (amount > 0 && outcome is Some),
        s.spec_swap(is_x, amount, outcome) matches Err(e) ==> e == AmmErrorCode::CustomError,
        s.spec_swap(is_x, amount, outcome) matches Ok(ops) ==> {
            let r = outcome->Some_0;
            &&& ops.len() == 2
            &&& moves(ops[0], user_account(is_x), vault(is_x), r.deposit, AuthorityRole::User)
            &&& moves(ops[1], vault(!is_x), user_account(!is_x), r.withdraw, AuthorityRole::Config)
            &&& forall|i: int| 0 <= i < 2 ==> coherent(#[trigger] ops[i], s.mint_x_decimals, s.mint_y_decimals, 0)
        },
{
}

/// `burn_lp` goes through exactly when the amount is not zero, the pool is
/// unlocked and the previous instruction is the matching withdrawal; it then
/// burns exactly `amount` of the user's LP tokens under the config's authority.
pub proof fn lemma_burn_lp_burns_amount(b: BurnLp, amount: u64)
    ensures
        b.spec_burn_lp(amount) is Ok <==> (amount > 0 && !b.config.locked && b.spec_verify_withdraw(amount) is Ok),
        b.spec_burn_lp(amount) matches Ok(ops) ==> {
            &&& ops.len() == 1
            &&& ops[0] is Burn && source(ops[0]) == Some(TokenAccountRole::UserLp)
            &&& moved(ops[0]) == amount && authority(ops[0]) == AuthorityRole::Config
            &&& coherent(ops[0], 0, 0, 0)
        },
{
}

/// `mint_lp` goes through exactly when the amount is not zero, the pool is
/// unlocked and the previous instruction is the matching deposit; it then
/// mints exactly `amount` LP tokens to the user under the config's authority.
pub proof fn lemma_mint_lp_mints_amount(m: MintLp, amount: u64)
    ensures
        m.spec_mint_lp(amount) is Ok <==> (amount > 0 && !m.config.locked && m.spec_verify_deposit(amount) is Ok),
        m.spec_mint_lp(amount) matches Ok(ops) ==> {
            &&& ops.len() == 1
            &&& ops[0] is MintTo && destination(ops[0]) == Some(TokenAccountRole::UserLp)
            &&& moved(ops[0]) == amount && authority(ops[0]) == AuthorityRole::Config
            &&& coherent(ops[0], 0, 0, 0)
        },
{
}

/// The checks each handler makes before the curve is asked pass exactly
/// when the handler itself would not refuse for the same reasons: the pool is
/// unlocked and the amount is not zero (and, for the withdrawal with
/// introspection, the next instruction burns that amount); their refusals are
/// the handler's.
pub proof fn lemma_checks_agree(
    d: Deposit,
    w: Withdraw,
    wi: WithdrawWithIntrospection,
    amount: u64,
    lo: u64,
    hi: u64,
    quote: XYAmounts,
)
    ensures
        d.spec_check(amount) is Ok <==> (!d.config.locked && amount > 0),
        d.spec_check(amount) matches Err(e) ==> e == AmmErrorCode::CustomError
            && d.spec_deposit(amount, hi, hi, Some(quote)) == Err::<Seq<TokenOp>, AmmErrorCode>(e),
        Swap::spec_check(amount) is Ok <==> amount > 0,
        Swap::spec_check(amount) matches Err(e) ==> e == AmmErrorCode::CustomError,
        w.spec_check(amount) is Ok <==> (!w.config.locked && amount > 0),
        w.spec_check(amount) matches Err(e) ==> e == AmmErrorCode::CustomError
            && w.spec_withdraw(amount, lo, lo, quote) == Err::<Seq<TokenOp>, AmmErrorCode>(e),
        wi.spec_check(amount) is Ok <==> (amount > 0 && !wi.config.locked && wi.spec_verify_burn(amount) is Ok),
        wi.spec_check(amount) matches Err(e) ==> wi.spec_withdraw(amount, lo, lo, quote) == Err::<
            Seq<TokenOp>,
            AmmErrorCode,
        >(e),
{
}

/// A neighbouring instruction passes the checks exactly when it exists, is
/// addressed to this program, starts with the expected discriminator, has the
/// expected data length, lists an admissible number of accounts that start
/// with the expected ones, and carries `amount` little endian right after its
/// discriminator.
pub proof fn lemma_sibling_accepted_iff(
    ix: Option<Instruction>,
    disc: Seq<u8>,
    data_len: nat,
    rule: AccountsLen,
    expected: Seq<crate::amm::state::Pubkey>,
    amount: u64,
)
    requires
        expected.len() <= rule.least(),
    ensures
        spec_check_sibling(ix, disc, data_len, rule, expected, amount) is Ok <==> (ix matches Some(i) && {
            &&& i.program_id@ == ID@
            &&& i.data@.subrange(0, 8) == disc
            &&& i.data@.len() == data_len
            &&& rule.admits(i.accounts@.len())
            &&& forall|k: int| 0 <= k < expected.len() ==> #[trigger] i.accounts@[k].pubkey@ == expected[k]@
            &&& spec_u64_from_le_bytes(i.data@.subrange(8, 16)) == amount
        }),
        ix is None ==> spec_check_sibling(ix, disc, data_len, rule, expected, amount) == Err::<(), AmmErrorCode>(
            AmmErrorCode::MissingPriorInstruction,
        ),
{
    if let Some(i) = ix {
        if spec_check_sibling(ix, disc, data_len, rule, expected, amount) is Ok {
            assert(spec_confirm_accounts(i.accounts@, rule, expected) is Ok);
        }
    }
}

} // verus!
