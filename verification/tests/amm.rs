use amm_dice::amm::burn_lp::BurnLp;
use amm_dice::amm::deposit::Deposit;
use amm_dice::amm::error::AmmErrorCode;
use amm_dice::amm::initialize::{Initialize, InitializeBumps};
use amm_dice::amm::mint_lp::MintLp;
use amm_dice::amm::ops::{AuthorityRole, MintRole, TokenAccountRole, TokenOp, TokenProgramRole};
use amm_dice::amm::state::{
    AccountMeta, Config, Instruction, Pubkey, SwapResult, XYAmounts, BURN_LP_DISCRIMINATOR,
    DEPOSIT_WITH_INTROSPECTION_DISCRIMINATOR, ID, MINT_LP_DISCRIMINATOR,
    WITHDRAW_WITH_INTROSPECTION_DISCRIMINATOR,
};
use amm_dice::amm::swap::Swap;
use amm_dice::amm::withdraw::Withdraw;
use amm_dice::amm::withdraw_with_introspection::WithdrawWithIntrospection;
use sha2::{Digest, Sha256};

const USER: Pubkey = [1u8; 32];
const MINT_X: Pubkey = [2u8; 32];
const MINT_Y: Pubkey = [3u8; 32];
const CONFIG_KEY: Pubkey = [4u8; 32];
const MINT_LP: Pubkey = [5u8; 32];
const OTHER: Pubkey = [9u8; 32];

fn config(locked: bool) -> Config {
    Config {
        seed: 42,
        authority: None,
        mint_x: MINT_X,
        mint_y: MINT_Y,
        fee: 30,
        locked,
        config_bump: 254,
        lp_bump: 253,
    }
}

fn sighash(name: &str) -> [u8; 8] {
    let digest = Sha256::digest(format!("global:{}", name).as_bytes());
    let mut out = [0u8; 8];
    out.copy_from_slice(&digest[..8]);
    out
}

fn metas(keys: &[Pubkey], total: usize) -> Vec<AccountMeta> {
    let mut v: Vec<AccountMeta> = keys
        .iter()
        .map(|k| AccountMeta { pubkey: *k, is_signer: false, is_writable: true })
        .collect();
    while v.len() < total {
        v.push(AccountMeta { pubkey: OTHER, is_signer: false, is_writable: false });
    }
    v
}

fn data(disc: &[u8; 8], args: &[u64]) -> Vec<u8> {
    let mut d = disc.to_vec();
    for a in args {
        d.extend_from_slice(&a.to_le_bytes());
    }
    d
}

fn transfer(
    program: TokenProgramRole,
    from: TokenAccountRole,
    to: TokenAccountRole,
    mint: MintRole,
    authority: AuthorityRole,
    amount: u64,
    decimals: u8,
) -> TokenOp {
    TokenOp::TransferChecked { program, from, to, mint, authority, amount, decimals }
}

// ---- constants ----

#[test]
fn program_id_is_declared_address() {
    let decoded = bs58::decode("8NVA8HLgC9e3G4VgdfEAxPGeomNZgHFQGaAXDZsgYjHV").into_vec().unwrap();
    assert_eq!(decoded.as_slice(), &ID[..]);
}

#[test]
fn discriminators_are_anchor_sighashes() {
    assert_eq!(WITHDRAW_WITH_INTROSPECTION_DISCRIMINATOR, sighash("withdraw_with_introspection"));
    assert_eq!(BURN_LP_DISCRIMINATOR, sighash("burn_lp"));
    assert_eq!(DEPOSIT_WITH_INTROSPECTION_DISCRIMINATOR, sighash("deposit_with_introspection"));
    assert_eq!(MINT_LP_DISCRIMINATOR, sighash("mint_lp"));
}

// ---- initialize ----

#[test]
fn init_builds_unlocked_config() {
    let init = Initialize { mint_x_key: MINT_X, mint_y_key: MINT_Y };
    let c = init.init(7, 25, Some(USER), InitializeBumps { config: 250, mint_lp: 249 });
    assert_eq!(
        c,
        Config {
            seed: 7,
            authority: Some(USER),
            mint_x: MINT_X,
            mint_y: MINT_Y,
            fee: 25,
            locked: false,
            config_bump: 250,
            lp_bump: 249,
        }
    );
}

// ---- deposit ----

fn deposit_view(locked: bool, vx: u64, vy: u64, supply: u64) -> Deposit {
    Deposit {
        config: config(locked),
        vault_x_amount: vx,
        vault_y_amount: vy,
        lp_supply: supply,
        mint_x_decimals: 6,
        mint_y_decimals: 9,
    }
}

fn deposit_ops(x: u64, y: u64, lp: u64) -> Vec<TokenOp> {
    vec![
        transfer(TokenProgramRole::X, TokenAccountRole::UserX, TokenAccountRole::VaultX, MintRole::X, AuthorityRole::User, x, 6),
        transfer(TokenProgramRole::Y, TokenAccountRole::UserY, TokenAccountRole::VaultY, MintRole::Y, AuthorityRole::User, y, 9),
        TokenOp::MintTo {
            program: TokenProgramRole::Lp,
            mint: MintRole::Lp,
            to: TokenAccountRole::UserLp,
            authority: AuthorityRole::Config,
            amount: lp,
        },
    ]
}

#[test]
fn deposit_into_empty_pool_takes_offered_amounts() {
    let d = deposit_view(false, 0, 0, 0);
    assert!(!d.needs_quote());
    assert_eq!(d.deposit(1000, 500, 700, None), Ok(deposit_ops(500, 700, 1000)));
}

#[test]
fn deposit_into_pool_takes_quote() {
    let d = deposit_view(false, 10, 20, 30);
    assert!(d.needs_quote());
    let q = XYAmounts { x: 40, y: 80 };
    assert_eq!(d.deposit(120, 40, 100, Some(q)), Ok(deposit_ops(40, 80, 120)));
}

#[test]
fn deposit_refuses_quote_above_max() {
    let d = deposit_view(false, 10, 20, 30);
    let q = XYAmounts { x: 41, y: 80 };
    assert_eq!(d.deposit(120, 40, 100, Some(q)), Err(AmmErrorCode::CustomError));
    let q = XYAmounts { x: 40, y: 101 };
    assert_eq!(d.deposit(120, 40, 100, Some(q)), Err(AmmErrorCode::CustomError));
}

#[test]
fn deposit_refuses_locked_pool_and_zero_amount() {
    let d = deposit_view(true, 0, 0, 0);
    assert_eq!(d.check(5), Err(AmmErrorCode::CustomError));
    assert_eq!(d.deposit(5, 1, 1, None), Err(AmmErrorCode::CustomError));
    let d = deposit_view(false, 0, 0, 0);
    assert_eq!(d.check(0), Err(AmmErrorCode::CustomError));
    assert_eq!(d.deposit(0, 1, 1, None), Err(AmmErrorCode::CustomError));
    assert_eq!(d.check(1), Ok(()));
}

#[test]
fn pool_with_only_lp_supply_needs_quote() {
    assert!(deposit_view(false, 0, 0, 1).needs_quote());
    assert!(deposit_view(false, 1, 0, 0).needs_quote());
    assert!(deposit_view(false, 0, 1, 0).needs_quote());
}

// ---- swap ----

#[test]
fn swap_x_for_y_moves_curve_amounts() {
    let s = Swap { mint_x_decimals: 6, mint_y_decimals: 9 };
    let r = SwapResult { deposit: 100, withdraw: 95, fee: 1 };
    assert_eq!(
        s.swap(true, 100, Some(r)),
        Ok(vec![
            transfer(TokenProgramRole::X, TokenAccountRole::UserX, TokenAccountRole::VaultX, MintRole::X, AuthorityRole::User, 100, 6),
            transfer(TokenProgramRole::Y, TokenAccountRole::VaultY, TokenAccountRole::UserY, MintRole::Y, AuthorityRole::Config, 95, 9),
        ])
    );
}

#[test]
fn swap_y_for_x_moves_curve_amounts() {
    let s = Swap { mint_x_decimals: 6, mint_y_decimals: 9 };
    let r = SwapResult { deposit: 7, withdraw: 3, fee: 0 };
    assert_eq!(
        s.swap(false, 7, Some(r)),
        Ok(vec![
            transfer(TokenProgramRole::Y, TokenAccountRole::UserY, TokenAccountRole::VaultY, MintRole::Y, AuthorityRole::User, 7, 9),
            transfer(TokenProgramRole::X, TokenAccountRole::VaultX, TokenAccountRole::UserX, MintRole::X, AuthorityRole::Config, 3, 6),
        ])
    );
}

#[test]
fn swap_refuses_zero_and_curve_failure() {
    let s = Swap { mint_x_decimals: 6, mint_y_decimals: 9 };
    let r = SwapResult { deposit: 7, withdraw: 3, fee: 0 };
    assert_eq!(Swap::check(0), Err(AmmErrorCode::CustomError));
    assert_eq!(Swap::check(1), Ok(()));
    assert_eq!(s.swap(true, 0, Some(r)), Err(AmmErrorCode::CustomError));
    assert_eq!(s.swap(true, 5, None), Err(AmmErrorCode::CustomError));
}

#[test]
fn swap_withdraw_token_is_signed_by_config() {
    let s = Swap { mint_x_decimals: 6, mint_y_decimals: 9 };
    assert_eq!(
        s.withdraw_token(true, 11),
        transfer(TokenProgramRole::X, TokenAccountRole::VaultX, TokenAccountRole::UserX, MintRole::X, AuthorityRole::Config, 11, 6)
    );
}

// ---- withdraw ----

fn withdraw_view(locked: bool) -> Withdraw {
    Withdraw { config: config(locked), mint_x_decimals: 6, mint_y_decimals: 9, mint_lp_decimals: 6 }
}

#[test]
fn withdraw_burns_then_pays_out() {
    let w = withdraw_view(false);
    let q = XYAmounts { x: 50, y: 60 };
    assert_eq!(
        w.withdraw(10, 50, 59, q),
        Ok(vec![
            TokenOp::BurnChecked {
                program: TokenProgramRole::Lp,
                mint: MintRole::Lp,
                from: TokenAccountRole::UserLp,
                authority: AuthorityRole::User,
                amount: 10,
                decimals: 6,
            },
            transfer(TokenProgramRole::X, TokenAccountRole::VaultX, TokenAccountRole::UserX, MintRole::X, AuthorityRole::Config, 50, 6),
            transfer(TokenProgramRole::Y, TokenAccountRole::VaultY, TokenAccountRole::UserY, MintRole::Y, AuthorityRole::Config, 60, 9),
        ])
    );
}

#[test]
fn withdraw_refuses_below_min_locked_and_zero() {
    let q = XYAmounts { x: 50, y: 60 };
    assert_eq!(withdraw_view(false).withdraw(10, 51, 0, q), Err(AmmErrorCode::CustomError));
    assert_eq!(withdraw_view(false).withdraw(10, 0, 61, q), Err(AmmErrorCode::CustomError));
    assert_eq!(withdraw_view(true).withdraw(10, 0, 0, q), Err(AmmErrorCode::CustomError));
    assert_eq!(withdraw_view(true).check(10), Err(AmmErrorCode::CustomError));
    assert_eq!(withdraw_view(false).withdraw(0, 0, 0, q), Err(AmmErrorCode::CustomError));
    assert_eq!(withdraw_view(false).check(10), Ok(()));
}

// ---- withdraw_with_introspection / burn_lp ----

fn burn_ix(amount: u64) -> Instruction {
    Instruction {
        program_id: ID,
        accounts: metas(&[USER, CONFIG_KEY, MINT_LP], 8),
        data: data(&BURN_LP_DISCRIMINATOR, &[amount]),
    }
}

fn withdraw_ix(amount: u64, min_x: u64, min_y: u64) -> Instruction {
    Instruction {
        program_id: ID,
        accounts: metas(&[USER, MINT_X, MINT_Y, CONFIG_KEY, MINT_LP], 14),
        data: data(&WITHDRAW_WITH_INTROSPECTION_DISCRIMINATOR, &[amount, min_x, min_y]),
    }
}

fn wwi(locked: bool, next: Option<Instruction>) -> WithdrawWithIntrospection {
    WithdrawWithIntrospection {
        user: USER,
        config: config(locked),
        config_key: CONFIG_KEY,
        mint_lp_key: MINT_LP,
        mint_x_decimals: 6,
        mint_y_decimals: 9,
        next_instruction: next,
    }
}

fn burn_view(locked: bool, prior: Option<Instruction>) -> BurnLp {
    BurnLp { user: USER, config: config(locked), config_key: CONFIG_KEY, mint_lp_key: MINT_LP, prior_instruction: prior }
}

#[test]
fn honest_withdraw_burn_pair_is_accepted() {
    let q = XYAmounts { x: 30, y: 40 };
    let w = wwi(false, Some(burn_ix(25)));
    assert_eq!(
        w.withdraw_with_introseption(25, 30, 40, q),
        Ok(vec![
            transfer(TokenProgramRole::X, TokenAccountRole::VaultX, TokenAccountRole::UserX, MintRole::X, AuthorityRole::User, 30, 6),
            transfer(TokenProgramRole::Y, TokenAccountRole::VaultY, TokenAccountRole::UserY, MintRole::Y, AuthorityRole::User, 40, 9),
        ])
    );
    let b = burn_view(false, Some(withdraw_ix(25, 30, 40)));
    assert_eq!(b.verify_withdraw(25), Ok(()));
    assert_eq!(
        b.burn_lp(25),
        Ok(vec![TokenOp::Burn {
            program: TokenProgramRole::Lp,
            mint: MintRole::Lp,
            from: TokenAccountRole::UserLp,
            authority: AuthorityRole::Config,
            amount: 25,
        }])
    );
}

#[test]
fn withdraw_with_introspection_refusals() {
    let q = XYAmounts { x: 30, y: 40 };
    assert_eq!(wwi(false, Some(burn_ix(25))).withdraw_with_introseption(0, 0, 0, q), Err(AmmErrorCode::InvalidAmount));
    assert_eq!(wwi(true, Some(burn_ix(25))).withdraw_with_introseption(25, 0, 0, q), Err(AmmErrorCode::PoolLocked));
    assert_eq!(wwi(false, None).withdraw_with_introseption(25, 0, 0, q), Err(AmmErrorCode::MissingPriorInstruction));
    assert_eq!(wwi(false, Some(burn_ix(24))).withdraw_with_introseption(25, 0, 0, q), Err(AmmErrorCode::InvalidAmount));
    assert_eq!(wwi(false, Some(burn_ix(25))).withdraw_with_introseption(25, 31, 0, q), Err(AmmErrorCode::InvalidAmount));
    assert_eq!(wwi(false, Some(burn_ix(25))).withdraw_with_introseption(25, 0, 41, q), Err(AmmErrorCode::InvalidAmount));
    assert_eq!(wwi(false, Some(burn_ix(25))).check(25), Ok(()));
}

#[test]
fn sibling_check_refusals_in_order() {
    let q = XYAmounts { x: 30, y: 40 };
    // wrong discriminator
    let mut ix = burn_ix(25);
    ix.data[0] ^= 1;
    ix.program_id = OTHER;
    assert_eq!(wwi(false, Some(ix)).withdraw_with_introseption(25, 0, 0, q), Err(AmmErrorCode::UnexpectedDiscriminator));
    // wrong program
    let mut ix = burn_ix(25);
    ix.program_id = OTHER;
    ix.data.push(0);
    assert_eq!(wwi(false, Some(ix)).withdraw_with_introseption(25, 0, 0, q), Err(AmmErrorCode::InvalidProgramId));
    // wrong data length
    let mut ix = burn_ix(25);
    ix.data.push(0);
    ix.accounts.pop();
    assert_eq!(wwi(false, Some(ix)).withdraw_with_introseption(25, 0, 0, q), Err(AmmErrorCode::InvalidDataLength));
    // wrong number of accounts
    let mut ix = burn_ix(25);
    ix.accounts.pop();
    ix.accounts[0].pubkey = OTHER;
    assert_eq!(wwi(false, Some(ix)).withdraw_with_introseption(25, 0, 0, q), Err(AmmErrorCode::InvalidAccountsLength));
    // wrong key
    let mut ix = burn_ix(24);
    ix.accounts[2].pubkey = OTHER;
    assert_eq!(wwi(false, Some(ix)).withdraw_with_introseption(25, 0, 0, q), Err(AmmErrorCode::InvalidKey));
    // a key past the expected ones does not matter
    let mut ix = burn_ix(25);
    ix.accounts[3].pubkey = USER;
    assert_eq!(wwi(false, Some(ix)).withdraw_with_introseption(25, 0, 0, q).is_ok(), true);
}

#[test]
fn burn_lp_refusals() {
    assert_eq!(burn_view(false, Some(withdraw_ix(25, 0, 0))).burn_lp(0), Err(AmmErrorCode::InvalidAmount));
    assert_eq!(burn_view(true, Some(withdraw_ix(25, 0, 0))).burn_lp(25), Err(AmmErrorCode::PoolLocked));
    assert_eq!(burn_view(false, None).burn_lp(25), Err(AmmErrorCode::MissingPriorInstruction));
    assert_eq!(burn_view(false, Some(withdraw_ix(26, 0, 0))).burn_lp(25), Err(AmmErrorCode::InvalidAmount));
    assert_eq!(burn_view(false, Some(burn_ix(25))).burn_lp(25), Err(AmmErrorCode::UnexpectedDiscriminator));
    let mut ix = withdraw_ix(25, 0, 0);
    ix.accounts.push(AccountMeta { pubkey: OTHER, is_signer: false, is_writable: false });
    assert_eq!(burn_view(false, Some(ix)).burn_lp(25), Err(AmmErrorCode::InvalidAccountsLength));
    let mut ix = withdraw_ix(25, 0, 0);
    ix.accounts[1].pubkey = MINT_Y;
    assert_eq!(burn_view(false, Some(ix)).burn_lp(25), Err(AmmErrorCode::InvalidKey));
}

// ---- mint_lp ----

fn deposit_ix(amount: u64, accounts: usize) -> Instruction {
    Instruction {
        program_id: ID,
        accounts: metas(&[USER, MINT_X, MINT_Y, CONFIG_KEY], accounts),
        data: data(&DEPOSIT_WITH_INTROSPECTION_DISCRIMINATOR, &[amount, 1, 2]),
    }
}

fn mint_view(locked: bool, prior: Option<Instruction>) -> MintLp {
    MintLp { user: USER, config: config(locked), config_key: CONFIG_KEY, prior_instruction: prior }
}

#[test]
fn mint_lp_after_matching_deposit() {
    let expected = Ok(vec![TokenOp::MintTo {
        program: TokenProgramRole::Lp,
        mint: MintRole::Lp,
        to: TokenAccountRole::UserLp,
        authority: AuthorityRole::Config,
        amount: 77,
    }]);
    assert_eq!(mint_view(false, Some(deposit_ix(77, 12))).mint_lp(77), expected);
    assert_eq!(mint_view(false, Some(deposit_ix(77, 20))).mint_lp(77), expected);
    assert_eq!(mint_view(false, Some(deposit_ix(77, 12))).verify_deposit(77), Ok(()));
}

#[test]
fn mint_lp_refusals() {
    assert_eq!(mint_view(false, Some(deposit_ix(77, 12))).mint_lp(0), Err(AmmErrorCode::InvalidAmount));
    assert_eq!(mint_view(true, Some(deposit_ix(77, 12))).mint_lp(77), Err(AmmErrorCode::PoolLocked));
    assert_eq!(mint_view(false, None).mint_lp(77), Err(AmmErrorCode::MissingPriorInstruction));
    assert_eq!(mint_view(false, Some(deposit_ix(77, 11))).mint_lp(77), Err(AmmErrorCode::InvalidAccountsLength));
    assert_eq!(mint_view(false, Some(deposit_ix(78, 12))).mint_lp(77), Err(AmmErrorCode::InvalidAmount));
    let mut ix = deposit_ix(77, 12);
    ix.data.truncate(16);
    assert_eq!(mint_view(false, Some(ix)).mint_lp(77), Err(AmmErrorCode::InvalidDataLength));
}

// ---- laws on concrete values ----

#[test]
fn deposit_never_takes_more_than_max() {
    let d = deposit_view(false, 10, 20, 30);
    for (qx, qy) in [(0u64, 0u64), (5, 5), (10, 20), (11, 20), (10, 21)] {
        if let Ok(ops) = d.deposit(3, 10, 20, Some(XYAmounts { x: qx, y: qy })) {
            for op in ops {
                if let TokenOp::TransferChecked { mint: MintRole::X, amount, .. } = op {
                    assert!(amount <= 10);
                }
                if let TokenOp::TransferChecked { mint: MintRole::Y, amount, .. } = op {
                    assert!(amount <= 20);
                }
            }
        }
    }
}

#[test]
fn locked_pool_refuses_everything_but_swaps() {
    let q = XYAmounts { x: 1, y: 1 };
    assert!(deposit_view(true, 1, 1, 1).deposit(5, 9, 9, Some(q)).is_err());
    assert!(withdraw_view(true).withdraw(5, 0, 0, q).is_err());
    assert!(wwi(true, Some(burn_ix(5))).withdraw_with_introseption(5, 0, 0, q).is_err());
    assert!(burn_view(true, Some(withdraw_ix(5, 0, 0))).burn_lp(5).is_err());
    assert!(mint_view(true, Some(deposit_ix(5, 12))).mint_lp(5).is_err());
}

#[test]
fn burn_amount_must_match_withdrawn_amount() {
    for (withdrawn, burned) in [(5u64, 5u64), (5, 6), (u64::MAX, u64::MAX), (0x0102030405060708, 0x0807060504030201)] {
        let w = wwi(false, Some(burn_ix(burned)));
        assert_eq!(w.check(withdrawn).is_ok(), withdrawn == burned);
    }
}
