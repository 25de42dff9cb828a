use firebird::account::{GlobalPool, TokenAccountState, UserState};
use firebird::error::ErrorCode;
use firebird::keys::Key;
use firebird::pda::{derive_global_authority, derive_user_state_address};
use firebird::vault::{
    deposit, initialize, user_token_pool_initialize, withdraw, DepositToken, Initialize,
    UserStateInitialize, WithdrawToken,
};

fn key(n: u8) -> Key {
    Key::new([n; 32])
}

const PROGRAM: u8 = 1;
const ADMIN: u8 = 2;
const MINT: u8 = 3;
const USER: u8 = 4;

struct Setup {
    program_id: Key,
    admin: Key,
    mint: Key,
    user: Key,
    global_authority_address: Key,
    user_state_address: Key,
}

fn setup() -> Setup {
    let program_id = key(PROGRAM);
    let mint = key(MINT);
    let user = key(USER);
    let (global_authority_address, _) = derive_global_authority(&program_id).unwrap();
    let (user_state_address, _) =
        derive_user_state_address(&mint, &user, &program_id).unwrap();
    Setup {
        program_id,
        admin: key(ADMIN),
        mint,
        user,
        global_authority_address,
        user_state_address,
    }
}

fn funded_deposit_ctx(s: &Setup, state_amount: u64, pool: u64, wallet: u64) -> DepositToken {
    DepositToken {
        user_state: Some(UserState { amount: state_amount, mint: s.mint }),
        user_state_address: s.user_state_address,
        token_pool: TokenAccountState {
            mint: s.mint,
            owner: s.global_authority_address,
            balance: pool,
        },
        user_token_account: TokenAccountState { mint: s.mint, owner: s.user, balance: wallet },
        signer: s.user,
        signer_signed: true,
        global_authority: Some(GlobalPool { admin: s.admin }),
        global_authority_address: s.global_authority_address,
        token_mint: s.mint,
    }
}

fn funded_withdraw_ctx(s: &Setup, state_amount: u64, pool: u64, wallet: u64) -> WithdrawToken {
    WithdrawToken {
        user_state: Some(UserState { amount: state_amount, mint: s.mint }),
        user_state_address: s.user_state_address,
        token_pool: TokenAccountState {
            mint: s.mint,
            owner: s.global_authority_address,
            balance: pool,
        },
        user_token_account: TokenAccountState { mint: s.mint, owner: s.user, balance: wallet },
        signer: s.user,
        signer_signed: true,
        global_authority: Some(GlobalPool { admin: s.admin }),
        global_authority_address: s.global_authority_address,
        token_mint: s.mint,
    }
}

#[test]
fn initialize_then_deposit() {
    let s = setup();

    let mut init = Initialize {
        global_authority: None,
        global_authority_address: s.global_authority_address,
        admin: s.admin,
        admin_signed: true,
    };
    assert_eq!(initialize(&mut init, &s.program_id), Ok(()));
    assert_eq!(init.global_authority, Some(GlobalPool { admin: s.admin }));

    let mut user_init = UserStateInitialize {
        user_state: None,
        user_state_address: s.user_state_address,
        signer: s.user,
        signer_signed: true,
        token_mint: s.mint,
    };
    assert_eq!(user_token_pool_initialize(&mut user_init, &s.program_id), Ok(()));
    assert_eq!(user_init.user_state, Some(UserState { amount: 0, mint: s.mint }));

    let mut ctx = funded_deposit_ctx(&s, 0, 500, 150);
    assert_eq!(deposit(&mut ctx, &s.program_id, 100), Ok(()));
    assert_eq!(ctx.user_state, Some(UserState { amount: 100, mint: s.mint }));
    assert_eq!(ctx.token_pool.balance, 600);
    assert_eq!(ctx.user_token_account.balance, 50);
}

#[test]
fn deposit_then_withdraw_equal_amount() {
    let s = setup();
    let mut ctx = funded_deposit_ctx(&s, 0, 500, 150);
    assert_eq!(deposit(&mut ctx, &s.program_id, 100), Ok(()));

    let mut wctx = funded_withdraw_ctx(&s, 100, 600, 50);
    assert_eq!(withdraw(&mut wctx, &s.program_id, 100), Ok(()));
    assert_eq!(wctx.user_state, Some(UserState { amount: 0, mint: s.mint }));
    assert_eq!(wctx.token_pool.balance, 500);
    assert_eq!(wctx.user_token_account.balance, 150);
}

#[test]
fn over_withdraw_rejected() {
    let s = setup();
    let mut ctx = funded_withdraw_ctx(&s, 100, 600, 50);
    let before = ctx;
    assert_eq!(withdraw(&mut ctx, &s.program_id, 101), Err(ErrorCode::ArithmeticUnderflow));
    assert_eq!(ctx, before);
}

#[test]
fn wrong_mint_rejected() {
    let s = setup();
    let mut ctx = funded_deposit_ctx(&s, 0, 500, 150);
    ctx.user_token_account.mint = key(99);
    let before = ctx;
    assert_eq!(deposit(&mut ctx, &s.program_id, 1), Err(ErrorCode::ConstraintViolation));
    assert_eq!(ctx, before);
}

#[test]
fn mismatched_state_mint_rejected() {
    let s = setup();
    let mut ctx = funded_withdraw_ctx(&s, 50, 500, 150);
    ctx.user_state = Some(UserState { amount: 50, mint: key(98) });
    let before = ctx;
    assert_eq!(withdraw(&mut ctx, &s.program_id, 1), Err(ErrorCode::ConstraintViolation));
    assert_eq!(ctx, before);
}

#[test]
fn forged_authority_rejected() {
    let s = setup();
    let mut ctx = funded_withdraw_ctx(&s, 100, 600, 50);
    ctx.global_authority_address = key(77);
    ctx.token_pool.owner = key(77);
    let before = ctx;
    assert_eq!(withdraw(&mut ctx, &s.program_id, 1), Err(ErrorCode::ConstraintViolation));
    assert_eq!(ctx, before);
}

#[test]
fn reinitialize_rejected() {
    let s = setup();
    let mut init = Initialize {
        global_authority: None,
        global_authority_address: s.global_authority_address,
        admin: s.admin,
        admin_signed: true,
    };
    assert_eq!(initialize(&mut init, &s.program_id), Ok(()));

    let mut second = Initialize {
        global_authority: init.global_authority,
        global_authority_address: s.global_authority_address,
        admin: key(55),
        admin_signed: true,
    };
    assert_eq!(initialize(&mut second, &s.program_id), Err(ErrorCode::AlreadyInitialized));
    assert_eq!(second.global_authority, Some(GlobalPool { admin: s.admin }));
}

#[test]
fn user_state_reinitialize_rejected() {
    let s = setup();
    let mut first = UserStateInitialize {
        user_state: None,
        user_state_address: s.user_state_address,
        signer: s.user,
        signer_signed: true,
        token_mint: s.mint,
    };
    assert_eq!(user_token_pool_initialize(&mut first, &s.program_id), Ok(()));

    let mut second = UserStateInitialize {
        user_state: first.user_state,
        user_state_address: s.user_state_address,
        signer: s.user,
        signer_signed: true,
        token_mint: s.mint,
    };
    assert_eq!(
        user_token_pool_initialize(&mut second, &s.program_id),
        Err(ErrorCode::AlreadyInitialized)
    );
    assert_eq!(second.user_state, Some(UserState { amount: 0, mint: s.mint }));
}

#[test]
fn wrong_state_address_rejected_at_initialize() {
    let s = setup();
    let mut init = UserStateInitialize {
        user_state: None,
        user_state_address: key(66),
        signer: s.user,
        signer_signed: true,
        token_mint: s.mint,
    };
    assert_eq!(
        user_token_pool_initialize(&mut init, &s.program_id),
        Err(ErrorCode::ConstraintViolation)
    );
    assert_eq!(init.user_state, None);
}

#[test]
fn unsigned_transaction_rejected() {
    let s = setup();
    let mut ctx = funded_deposit_ctx(&s, 0, 500, 150);
    ctx.signer_signed = false;
    let before = ctx;
    assert_eq!(deposit(&mut ctx, &s.program_id, 10), Err(ErrorCode::ConstraintViolation));
    assert_eq!(ctx, before);
}

#[test]
fn foreign_wallet_owner_rejected() {
    let s = setup();
    let mut ctx = funded_deposit_ctx(&s, 0, 500, 150);
    ctx.user_token_account.owner = key(88);
    let before = ctx;
    assert_eq!(deposit(&mut ctx, &s.program_id, 10), Err(ErrorCode::ConstraintViolation));
    assert_eq!(ctx, before);
}

#[test]
fn foreign_pool_owner_rejected() {
    let s = setup();
    let mut ctx = funded_withdraw_ctx(&s, 100, 600, 50);
    ctx.token_pool.owner = key(88);
    let before = ctx;
    assert_eq!(withdraw(&mut ctx, &s.program_id, 10), Err(ErrorCode::ConstraintViolation));
    assert_eq!(ctx, before);
}

#[test]
fn missing_records_rejected() {
    let s = setup();
    let mut ctx = funded_deposit_ctx(&s, 0, 500, 150);
    ctx.user_state = None;
    assert_eq!(deposit(&mut ctx, &s.program_id, 10), Err(ErrorCode::NotInitialized));

    let mut wctx = funded_withdraw_ctx(&s, 100, 600, 50);
    wctx.global_authority = None;
    let before = wctx;
    assert_eq!(withdraw(&mut wctx, &s.program_id, 10), Err(ErrorCode::NotInitialized));
    assert_eq!(wctx, before);
}

#[test]
fn credit_overflow_rejected() {
    let s = setup();
    let mut ctx = funded_deposit_ctx(&s, u64::MAX - 5, 0, 100);
    let before = ctx;
    assert_eq!(deposit(&mut ctx, &s.program_id, 6), Err(ErrorCode::ArithmeticOverflow));
    assert_eq!(ctx, before);
}

#[test]
fn insufficient_wallet_balance_rejected() {
    let s = setup();
    let mut ctx = funded_deposit_ctx(&s, 0, 500, 5);
    let before = ctx;
    assert_eq!(deposit(&mut ctx, &s.program_id, 6), Err(ErrorCode::TokenProgramFailure));
    assert_eq!(ctx, before);
}

#[test]
fn pool_balance_wrap_rejected() {
    let s = setup();
    let mut ctx = funded_deposit_ctx(&s, 0, u64::MAX, 100);
    let before = ctx;
    assert_eq!(deposit(&mut ctx, &s.program_id, 1), Err(ErrorCode::TokenProgramFailure));
    assert_eq!(ctx, before);
}

#[test]
fn balances_conserved_across_sequence() {
    let s = setup();
    let deposits: [u64; 3] = [100, 40, 7];
    let withdraws: [u64; 2] = [60, 30];

    let mut state_amount: u64 = 0;
    let mut pool: u64 = 1_000;
    let mut wallet: u64 = 500;
    for d in deposits {
        let mut ctx = funded_deposit_ctx(&s, state_amount, pool, wallet);
        assert_eq!(deposit(&mut ctx, &s.program_id, d), Ok(()));
        state_amount = ctx.user_state.unwrap().amount;
        pool = ctx.token_pool.balance;
        wallet = ctx.user_token_account.balance;
    }
    for w in withdraws {
        let mut ctx = funded_withdraw_ctx(&s, state_amount, pool, wallet);
        assert_eq!(withdraw(&mut ctx, &s.program_id, w), Ok(()));
        state_amount = ctx.user_state.unwrap().amount;
        pool = ctx.token_pool.balance;
        wallet = ctx.user_token_account.balance;
    }

    assert_eq!(state_amount, 100 + 40 + 7 - 60 - 30);
    assert_eq!(pool, 1_000 + 100 + 40 + 7 - 60 - 30);
    assert_eq!(wallet, 500 - 100 - 40 - 7 + 60 + 30);
}
