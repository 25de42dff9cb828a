//! The four entrypoints of the vault. Each takes the account set the runtime
//! hands in, decides whether the transaction is valid, and either applies the
//! whole effect or leaves every record untouched and says why. A spec
//! function beside each entrypoint pins down exactly when it succeeds, what
//! every record holds afterwards, and which error each rejected input earns.

use vstd::prelude::*;

use crate::account::{GlobalPool, TokenAccountState, UserState};
use crate::error::ErrorCode;
use crate::keys::{key_eq, Key};
use crate::pda::{
    derive_global_authority, derive_user_state_address, global_seeds, pda_matches,
    user_state_seeds,
};

verus! {

// ------------------------------------------------------------------
// initialize
// ------------------------------------------------------------------

/// The account set of `initialize`: the global record slot at its derived
/// address, and the administrator signer.
#[derive(Clone, Copy, Debug, PartialEq, Eq)]
pub struct Initialize {
    /// The global record at `global_authority_address`, if it already exists.
    pub global_authority: Option<GlobalPool>,
    /// The address the transaction supplied for the global record.
    pub global_authority_address: Key,
    /// The administrator identity.
    pub admin: Key,
    /// Whether the administrator signed the transaction.
    pub admin_signed: bool,
}

/// The constraints of `initialize`: the admin signed and the supplied address
/// is the canonical global authority derivation.
pub open spec fn initialize_valid(c: Initialize, program_id: Seq<u8>) -> bool {
    c.admin_signed && pda_matches(global_seeds(), program_id, c.global_authority_address@)
}

/// When `initialize` succeeds: the constraints hold and the global record
/// does not exist yet.
pub open spec fn initialize_ok(c: Initialize, program_id: Seq<u8>) -> bool {
    initialize_valid(c, program_id) && c.global_authority is None
}

/// The error a rejected `initialize` earns.
pub open spec fn initialize_err(c: Initialize, program_id: Seq<u8>) -> ErrorCode {
    if !initialize_valid(c, program_id) {
        ErrorCode::ConstraintViolation
    } else {
        ErrorCode::AlreadyInitialized
    }
}

/// The account set after a successful `initialize`: the global record exists
/// and names the caller as admin.
pub open spec fn initialize_next(c: Initialize) -> Initialize {
    Initialize {
        global_authority: Some(GlobalPool { admin: c.admin }),
        global_authority_address: c.global_authority_address,
        admin: c.admin,
        admin_signed: c.admin_signed,
    }
}

/// One-time creation of the global record. Records the caller as `admin`;
/// a second call finds the record in place and fails.
pub fn initialize(ctx: &mut Initialize, program_id: &Key) -> (r: Result<(), ErrorCode>)
    ensures
        (match r {
            Ok(()) => initialize_ok(*old(ctx), program_id@) && *final(ctx) == initialize_next(
                *old(ctx),
            ),
            Err(e) => {
                &&& !initialize_ok(*old(ctx), program_id@)
                &&& *final(ctx) == *old(ctx)
                &&& e == initialize_err(*old(ctx), program_id@)
            },
        }),
{
    if !ctx.admin_signed {
        return Err(ErrorCode::ConstraintViolation);
    }
    let derived = derive_global_authority(program_id);
    let address_ok = match &derived {
        Some(p) => key_eq(&p.0, &ctx.global_authority_address),
        None => false,
    };
    if !address_ok {
        return Err(ErrorCode::ConstraintViolation);
    }
    if ctx.global_authority.is_some() {
        return Err(ErrorCode::AlreadyInitialized);
    }
    ctx.global_authority = Some(GlobalPool { admin: ctx.admin });
    Ok(())
}

// ------------------------------------------------------------------
// user_token_pool_initialize
// ------------------------------------------------------------------

/// The account set of `user_token_pool_initialize`: the balance-record slot
/// at its derived address, the user signer, and the mint.
#[derive(Clone, Copy, Debug, PartialEq, Eq)]
pub struct UserStateInitialize {
    /// The balance record at `user_state_address`, if it already exists.
    pub user_state: Option<UserState>,
    /// The address the transaction supplied for the balance record.
    pub user_state_address: Key,
    /// The user identity.
    pub signer: Key,
    /// Whether the user signed the transaction.
    pub signer_signed: bool,
    /// The mint the record is for.
    pub token_mint: Key,
}

/// The constraints of `user_token_pool_initialize`: the user signed and the
/// supplied address is the derivation for (mint, user).
pub open spec fn user_state_initialize_valid(c: UserStateInitialize, program_id: Seq<u8>) -> bool {
    c.signer_signed && pda_matches(
        user_state_seeds(c.token_mint@, c.signer@),
        program_id,
        c.user_state_address@,
    )
}

/// When `user_token_pool_initialize` succeeds: the constraints hold and the
/// record does not exist yet.
pub open spec fn user_state_initialize_ok(c: UserStateInitialize, program_id: Seq<u8>) -> bool {
    user_state_initialize_valid(c, program_id) && c.user_state is None
}

/// The error a rejected `user_token_pool_initialize` earns.
pub open spec fn user_state_initialize_err(c: UserStateInitialize, program_id: Seq<u8>) -> ErrorCode {
    if !user_state_initialize_valid(c, program_id) {
        ErrorCode::ConstraintViolation
    } else {
        ErrorCode::AlreadyInitialized
    }
}

/// The account set after a successful `user_token_pool_initialize`: a fresh
/// record with a zero balance, pinned to the given mint.
pub open spec fn user_state_initialize_next(c: UserStateInitialize) -> UserStateInitialize {
    UserStateInitialize {
        user_state: Some(UserState { amount: 0, mint: c.token_mint }),
        user_state_address: c.user_state_address,
        signer: c.signer,
        signer_signed: c.signer_signed,
        token_mint: c.token_mint,
    }
}

/// Per-(user, mint) creation of the balance record, starting at zero. A
/// second call for the same pair finds the record in place and fails.
pub fn user_token_pool_initialize(ctx: &mut UserStateInitialize, program_id: &Key) -> (r: Result<
    (),
    ErrorCode,
>)
    ensures
        (match r {
            Ok(()) => user_state_initialize_ok(*old(ctx), program_id@) && *final(ctx)
                == user_state_initialize_next(*old(ctx)),
            Err(e) => {
                &&& !user_state_initialize_ok(*old(ctx), program_id@)
                &&& *final(ctx) == *old(ctx)
                &&& e == user_state_initialize_err(*old(ctx), program_id@)
            },
        }),
{
    if !ctx.signer_signed {
        return Err(ErrorCode::ConstraintViolation);
    }
    let derived = derive_user_state_address(&ctx.token_mint, &ctx.signer, program_id);
    let address_ok = match &derived {
        Some(p) => key_eq(&p.0, &ctx.user_state_address),
        None => false,
    };
    if !address_ok {
        return Err(ErrorCode::ConstraintViolation);
    }
    if ctx.user_state.is_some() {
        return Err(ErrorCode::AlreadyInitialized);
    }
    ctx.user_state = Some(UserState { amount: 0, mint: ctx.token_mint });
    Ok(())
}

// ------------------------------------------------------------------
// The shared constraint set of deposit and withdraw
// ------------------------------------------------------------------

/// The account constraints shared by `deposit` and `withdraw`: the user
/// signed; the balance record sits at the derivation for (mint, user); the
/// supplied authority is the canonical global derivation; the record, the
/// pool and the user's token account are all pinned to the mint; the pool is
/// owned by the global authority; the user's token account is owned by the
/// signer.
pub open spec fn transfer_constraints(
    user_state: UserState,
    user_state_address: Seq<u8>,
    token_pool: TokenAccountState,
    user_token_account: TokenAccountState,
    signer: Seq<u8>,
    signer_signed: bool,
    global_authority_address: Seq<u8>,
    token_mint: Seq<u8>,
    program_id: Seq<u8>,
) -> bool {
    &&& signer_signed
    &&& pda_matches(user_state_seeds(token_mint, signer), program_id, user_state_address)
    &&& pda_matches(global_seeds(), program_id, global_authority_address)
    &&& user_state.mint@ == token_mint
    &&& token_pool.mint@ == token_mint
    &&& token_pool.owner@ == global_authority_address
    &&& user_token_account.mint@ == token_mint
    &&& user_token_account.owner@ == signer
}

fn check_transfer_constraints(
    user_state: &UserState,
    user_state_address: &Key,
    token_pool: &TokenAccountState,
    user_token_account: &TokenAccountState,
    signer: &Key,
    signer_signed: bool,
    global_authority_address: &Key,
    token_mint: &Key,
    program_id: &Key,
) -> (r: bool)
    ensures
        r == transfer_constraints(
            *user_state,
            user_state_address@,
            *token_pool,
            *user_token_account,
            signer@,
            signer_signed,
            global_authority_address@,
            token_mint@,
            program_id@,
        ),
{
    if !signer_signed {
        return false;
    }
    let derived_state = derive_user_state_address(token_mint, signer, program_id);
    let state_address_ok = match &derived_state {
        Some(p) => key_eq(&p.0, user_state_address),
        None => false,
    };
    if !state_address_ok {
        return false;
    }
    let derived_authority = derive_global_authority(program_id);
    let authority_ok = match &derived_authority {
        Some(p) => key_eq(&p.0, global_authority_address),
        None => false,
    };
    if !authority_ok {
        return false;
    }
    if !key_eq(&user_state.mint, token_mint) {
        return false;
    }
    if !key_eq(&token_pool.mint, token_mint) {
        return false;
    }
    if !key_eq(&token_pool.owner, global_authority_address) {
        return false;
    }
    if !key_eq(&user_token_account.mint, token_mint) {
        return false;
    }
    key_eq(&user_token_account.owner, signer)
}

// ------------------------------------------------------------------
// deposit
// ------------------------------------------------------------------

/// The account set of `deposit`: the balance record and its address, the
/// pool and the user's token account, the signer, the supplied global
/// authority, and the mint.
#[derive(Clone, Copy, Debug, PartialEq, Eq)]
pub struct DepositToken {
    /// The balance record at `user_state_address`, if it exists.
    pub user_state: Option<UserState>,
    /// The address the transaction supplied for the balance record.
    pub user_state_address: Key,
    /// The program-controlled custody account of the mint.
    pub token_pool: TokenAccountState,
    /// The user's own token account.
    pub user_token_account: TokenAccountState,
    /// The user identity.
    pub signer: Key,
    /// Whether the user signed the transaction.
    pub signer_signed: bool,
    /// The global record at `global_authority_address`, if it exists.
    pub global_authority: Option<GlobalPool>,
    /// The address the transaction supplied for the global authority.
    pub global_authority_address: Key,
    /// The mint being moved.
    pub token_mint: Key,
}

/// Whether both records a transfer reads exist.
pub open spec fn deposit_present(c: DepositToken) -> bool {
    c.user_state is Some && c.global_authority is Some
}

/// The constraint set of `deposit` over its account set.
pub open spec fn deposit_constraints(c: DepositToken, program_id: Seq<u8>) -> bool {
    transfer_constraints(
        c.user_state->0,
        c.user_state_address@,
        c.token_pool,
        c.user_token_account,
        c.signer@,
        c.signer_signed,
        c.global_authority_address@,
        c.token_mint@,
        program_id,
    )
}

/// Whether the token program can move `amount` from the user's account into
/// the pool: the source holds enough and the destination does not wrap.
pub open spec fn deposit_transferable(c: DepositToken, amount: u64) -> bool {
    c.user_token_account.balance >= amount && c.token_pool.balance + amount <= u64::MAX
}

/// When `deposit` succeeds: the records exist, every constraint holds, the
/// transfer is possible, and crediting the balance record does not overflow.
pub open spec fn deposit_ok(c: DepositToken, program_id: Seq<u8>, amount: u64) -> bool {
    &&& deposit_present(c)
    &&& deposit_constraints(c, program_id)
    &&& deposit_transferable(c, amount)
    &&& c.user_state->0.amount + amount <= u64::MAX
}

/// The error a rejected `deposit` earns, in the order the checks run.
pub open spec fn deposit_err(c: DepositToken, program_id: Seq<u8>, amount: u64) -> ErrorCode {
    if !deposit_present(c) {
        ErrorCode::NotInitialized
    } else if !deposit_constraints(c, program_id) {
        ErrorCode::ConstraintViolation
    } else if !deposit_transferable(c, amount) {
        ErrorCode::TokenProgramFailure
    } else {
        ErrorCode::ArithmeticOverflow
    }
}

/// The account set after a successful `deposit` of `amount`: the user's
/// token account is debited, the pool credited, and the balance record
/// credited, all by exactly `amount`; nothing else moves.
pub open spec fn deposit_next(c: DepositToken, amount: u64) -> DepositToken {
    DepositToken {
        user_state: Some(
            UserState {
                amount: (c.user_state->0.amount + amount) as u64,
                mint: c.user_state->0.mint,
            },
        ),
        user_state_address: c.user_state_address,
        token_pool: TokenAccountState {
            mint: c.token_pool.mint,
            owner: c.token_pool.owner,
            balance: (c.token_pool.balance + amount) as u64,
        },
        user_token_account: TokenAccountState {
            mint: c.user_token_account.mint,
            owner: c.user_token_account.owner,
            balance: (c.user_token_account.balance - amount) as u64,
        },
        signer: c.signer,
        signer_signed: c.signer_signed,
        global_authority: c.global_authority,
        global_authority_address: c.global_authority_address,
        token_mint: c.token_mint,
    }
}

/// Moves `amount` from the user's token account into the pool, with the
/// signer as transfer authority, and credits the balance record. Any failed
/// check leaves every record untouched.
pub fn deposit(ctx: &mut DepositToken, program_id: &Key, amount: u64) -> (r: Result<(), ErrorCode>)
    ensures
        (match r {
            Ok(()) => deposit_ok(*old(ctx), program_id@, amount) && *final(ctx) == deposit_next(
                *old(ctx),
                amount,
            ),
            Err(e) => {
                &&& !deposit_ok(*old(ctx), program_id@, amount)
                &&& *final(ctx) == *old(ctx)
                &&& e == deposit_err(*old(ctx), program_id@, amount)
            },
        }),
{
    if ctx.user_state.is_none() || ctx.global_authority.is_none() {
        return Err(ErrorCode::NotInitialized);
    }
    let user_state = ctx.user_state.unwrap();
    let constraints_ok = check_transfer_constraints(
        &user_state,
        &ctx.user_state_address,
        &ctx.token_pool,
        &ctx.user_token_account,
        &ctx.signer,
        ctx.signer_signed,
        &ctx.global_authority_address,
        &ctx.token_mint,
        program_id,
    );
    if !constraints_ok {
        return Err(ErrorCode::ConstraintViolation);
    }
    if ctx.user_token_account.balance < amount {
        return Err(ErrorCode::TokenProgramFailure);
    }
    if ctx.token_pool.balance > u64::MAX - amount {
        return Err(ErrorCode::TokenProgramFailure);
    }
    if user_state.amount > u64::MAX - amount {
        return Err(ErrorCode::ArithmeticOverflow);
    }
    ctx.user_token_account.balance = ctx.user_token_account.balance - amount;
    ctx.token_pool.balance = ctx.token_pool.balance + amount;
    ctx.user_state = Some(UserState { amount: user_state.amount + amount, mint: user_state.mint });
    Ok(())
}

// ------------------------------------------------------------------
// withdraw
// ------------------------------------------------------------------

/// The account set of `withdraw`: identical in shape to `DepositToken`.
#[derive(Clone, Copy, Debug, PartialEq, Eq)]
pub struct WithdrawToken {
    /// The balance record at `user_state_address`, if it exists.
    pub user_state: Option<UserState>,
    /// The address the transaction supplied for the balance record.
    pub user_state_address: Key,
    /// The program-controlled custody account of the mint.
    pub token_pool: TokenAccountState,
    /// The user's own token account.
    pub user_token_account: TokenAccountState,
    /// The user identity.
    pub signer: Key,
    /// Whether the user signed the transaction.
    pub signer_signed: bool,
    /// The global record at `global_authority_address`, if it exists.
    pub global_authority: Option<GlobalPool>,
    /// The address the transaction supplied for the global authority.
    pub global_authority_address: Key,
    /// The mint being moved.
    pub token_mint: Key,
}

/// Whether both records a transfer reads exist.
pub open spec fn withdraw_present(c: WithdrawToken) -> bool {
    c.user_state is Some && c.global_authority is Some
}

/// The constraint set of `withdraw` over its account set.
pub open spec fn withdraw_constraints(c: WithdrawToken, program_id: Seq<u8>) -> bool {
    transfer_constraints(
        c.user_state->0,
        c.user_state_address@,
        c.token_pool,
        c.user_token_account,
        c.signer@,
        c.signer_signed,
        c.global_authority_address@,
        c.token_mint@,
        program_id,
    )
}

/// Whether the token program can move `amount` from the pool back to the
/// user's account: the pool holds enough and the destination does not wrap.
pub open spec fn withdraw_transferable(c: WithdrawToken, amount: u64) -> bool {
    c.token_pool.balance >= amount && c.user_token_account.balance + amount <= u64::MAX
}

/// When `withdraw` succeeds: the records exist, every constraint holds, the
/// debit does not underflow the balance record, and the transfer is possible.
pub open spec fn withdraw_ok(c: WithdrawToken, program_id: Seq<u8>, amount: u64) -> bool {
    &&& withdraw_present(c)
    &&& withdraw_constraints(c, program_id)
    &&& amount <= c.user_state->0.amount
    &&& withdraw_transferable(c, amount)
}

/// The error a rejected `withdraw` earns, in the order the checks run: the
/// underflow check precedes the outbound transfer.
pub open spec fn withdraw_err(c: WithdrawToken, program_id: Seq<u8>, amount: u64) -> ErrorCode {
    if !withdraw_present(c) {
        ErrorCode::NotInitialized
    } else if !withdraw_constraints(c, program_id) {
        ErrorCode::ConstraintViolation
    } else if amount > c.user_state->0.amount {
        ErrorCode::ArithmeticUnderflow
    } else {
        ErrorCode::TokenProgramFailure
    }
}

/// The account set after a successful `withdraw` of `amount`: the pool is
/// debited, the user's token account credited, and the balance record
/// debited, all by exactly `amount`; nothing else moves.
pub open spec fn withdraw_next(c: WithdrawToken, amount: u64) -> WithdrawToken {
    WithdrawToken {
        user_state: Some(
            UserState {
                amount: (c.user_state->0.amount - amount) as u64,
                mint: c.user_state->0.mint,
            },
        ),
        user_state_address: c.user_state_address,
        token_pool: TokenAccountState {
            mint: c.token_pool.mint,
            owner: c.token_pool.owner,
            balance: (c.token_pool.balance - amount) as u64,
        },
        user_token_account: TokenAccountState {
            mint: c.user_token_account.mint,
            owner: c.user_token_account.owner,
            balance: (c.user_token_account.balance + amount) as u64,
        },
        signer: c.signer,
        signer_signed: c.signer_signed,
        global_authority: c.global_authority,
        global_authority_address: c.global_authority_address,
        token_mint: c.token_mint,
    }
}

/// Moves `amount` from the pool back to the user's token account, signed on
/// behalf of the derived global authority, and debits the balance record.
/// The underflow check runs before the transfer; any failed check leaves
/// every record untouched.
pub fn withdraw(ctx: &mut WithdrawToken, program_id: &Key, amount: u64) -> (r: Result<
    (),
    ErrorCode,
>)
    ensures
        (match r {
            Ok(()) => withdraw_ok(*old(ctx), program_id@, amount) && *final(ctx) == withdraw_next(
                *old(ctx),
                amount,
            ),
            Err(e) => {
                &&& !withdraw_ok(*old(ctx), program_id@, amount)
                &&& *final(ctx) == *old(ctx)
                &&& e == withdraw_err(*old(ctx), program_id@, amount)
            },
        }),
{
    if ctx.user_state.is_none() || ctx.global_authority.is_none() {
        return Err(ErrorCode::NotInitialized);
    }
    let user_state = ctx.user_state.unwrap();
    let constraints_ok = check_transfer_constraints(
        &user_state,
        &ctx.user_state_address,
        &ctx.token_pool,
        &ctx.user_token_account,
        &ctx.signer,
        ctx.signer_signed,
        &ctx.global_authority_address,
        &ctx.token_mint,
        program_id,
    );
    if !constraints_ok {
        return Err(ErrorCode::ConstraintViolation);
    }
    if user_state.amount < amount {
        return Err(ErrorCode::ArithmeticUnderflow);
    }
    if ctx.token_pool.balance < amount {
        return Err(ErrorCode::TokenProgramFailure);
    }
    if ctx.user_token_account.balance > u64::MAX - amount {
        return Err(ErrorCode::TokenProgramFailure);
    }
    ctx.token_pool.balance = ctx.token_pool.balance - amount;
    ctx.user_token_account.balance = ctx.user_token_account.balance + amount;
    ctx.user_state = Some(UserState { amount: user_state.amount - amount, mint: user_state.mint });
    Ok(())
}

} // verus!
