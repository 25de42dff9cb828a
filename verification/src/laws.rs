//! The guarantees of the vault, written down as proof functions over the
//! entrypoints' transition relations. Each is stated once here and holds for
//! every input; the entrypoints' own contracts carry the per-call halves
//! (a rejected call leaves every record untouched).

use vstd::prelude::*;

use crate::error::ErrorCode;
use crate::ledger::{op_next, op_ok, PoolOp};
use crate::pda::{global_seeds, pda_matches};
use crate::vault::{
    deposit_constraints, deposit_err, deposit_next, deposit_ok, deposit_present, initialize_err,
    initialize_next, initialize_ok, initialize_valid, user_state_initialize_err,
    user_state_initialize_next, user_state_initialize_ok, user_state_initialize_valid,
    withdraw_constraints, withdraw_err, withdraw_next, withdraw_ok, withdraw_present, DepositToken,
    Initialize, UserStateInitialize, WithdrawToken,
};

verus! {

/// A successful deposit is exactly a ledger deposit on the balance record:
/// it succeeds as the ledger step does, credits the record by exactly the
/// amount, and never touches the record's mint.
pub proof fn lemma_deposit_steps_ledger(c: DepositToken, program_id: Seq<u8>, amount: u64)
    requires
        deposit_ok(c, program_id, amount),
    ensures
        op_ok(c.user_state->0.amount, PoolOp::Deposit(amount)),
        deposit_next(c, amount).user_state->0.amount == op_next(
            c.user_state->0.amount,
            PoolOp::Deposit(amount),
        ),
        deposit_next(c, amount).user_state->0.mint == c.user_state->0.mint,
{
}

/// A successful withdraw is exactly a ledger withdraw on the balance record:
/// it succeeds as the ledger step does, debits the record by exactly the
/// amount, and never touches the record's mint.
pub proof fn lemma_withdraw_steps_ledger(c: WithdrawToken, program_id: Seq<u8>, amount: u64)
    requires
        withdraw_ok(c, program_id, amount),
    ensures
        op_ok(c.user_state->0.amount, PoolOp::Withdraw(amount)),
        withdraw_next(c, amount).user_state->0.amount == op_next(
            c.user_state->0.amount,
            PoolOp::Withdraw(amount),
        ),
        withdraw_next(c, amount).user_state->0.mint == c.user_state->0.mint,
{
}

/// No underflow: a withdraw of more than the record holds never succeeds,
/// and once the records exist and the constraints hold, it is rejected as an
/// arithmetic underflow. The entrypoint's contract adds that every rejected
/// call leaves the record and the pool untouched.
pub proof fn lemma_no_underflow(c: WithdrawToken, program_id: Seq<u8>, amount: u64)
    requires
        amount > c.user_state->0.amount,
    ensures
        !withdraw_ok(c, program_id, amount),
        withdraw_present(c) && withdraw_constraints(c, program_id) ==> withdraw_err(
            c,
            program_id,
            amount,
        ) == ErrorCode::ArithmeticUnderflow,
{
}

/// No double initialization of the global record: once one `initialize` has
/// succeeded, any later `initialize` that sees the record it created fails,
/// a valid one with `AlreadyInitialized`, and the recorded admin is the
/// first caller's.
pub proof fn lemma_no_double_initialize(first: Initialize, second: Initialize, program_id: Seq<u8>)
    requires
        initialize_ok(first, program_id),
        second.global_authority == initialize_next(first).global_authority,
    ensures
        !initialize_ok(second, program_id),
        initialize_valid(second, program_id) ==> initialize_err(second, program_id)
            == ErrorCode::AlreadyInitialized,
        initialize_next(first).global_authority->0.admin == first.admin,
{
}

/// No double initialization of a balance record: once one
/// `user_token_pool_initialize` has succeeded, any later call that sees the
/// record it created fails, a valid one with `AlreadyInitialized`.
pub proof fn lemma_no_double_user_state_initialize(
    first: UserStateInitialize,
    second: UserStateInitialize,
    program_id: Seq<u8>,
)
    requires
        user_state_initialize_ok(first, program_id),
        second.user_state == user_state_initialize_next(first).user_state,
    ensures
        !user_state_initialize_ok(second, program_id),
        user_state_initialize_valid(second, program_id) ==> user_state_initialize_err(
            second,
            program_id,
        ) == ErrorCode::AlreadyInitialized,
{
}

/// Address determinism: any two account sets that pass the constraints for
/// the same mint, user and program agree on the balance record's address, so
/// the address computed off-chain from (mint, user) is the one the program
/// accepts.
pub proof fn lemma_address_determinism(a: DepositToken, b: DepositToken, program_id: Seq<u8>)
    requires
        deposit_constraints(a, program_id),
        deposit_constraints(b, program_id),
        a.token_mint@ == b.token_mint@,
        a.signer@ == b.signer@,
    ensures
        a.user_state_address@ == b.user_state_address@,
{
}

/// Authority isolation: a deposit whose supplied global authority is not the
/// canonical derivation never succeeds, and once the records exist it is
/// rejected as a constraint violation before any transfer.
pub proof fn lemma_authority_isolation_deposit(c: DepositToken, program_id: Seq<u8>, amount: u64)
    requires
        !pda_matches(global_seeds(), program_id, c.global_authority_address@),
    ensures
        !deposit_ok(c, program_id, amount),
        deposit_present(c) ==> deposit_err(c, program_id, amount) == ErrorCode::ConstraintViolation,
{
}

/// Authority isolation: a withdraw whose supplied global authority is not
/// the canonical derivation never moves pool funds, and once the records
/// exist it is rejected as a constraint violation before any transfer.
pub proof fn lemma_authority_isolation_withdraw(c: WithdrawToken, program_id: Seq<u8>, amount: u64)
    requires
        !pda_matches(global_seeds(), program_id, c.global_authority_address@),
    ensures
        !withdraw_ok(c, program_id, amount),
        withdraw_present(c) ==> withdraw_err(c, program_id, amount)
            == ErrorCode::ConstraintViolation,
{
}

/// Mint pinning: a deposit whose supplied mint differs from the one recorded
/// in the balance record fails a constraint check.
pub proof fn lemma_mint_pinning_deposit(c: DepositToken, program_id: Seq<u8>, amount: u64)
    requires
        c.user_state->0.mint@ != c.token_mint@,
    ensures
        !deposit_ok(c, program_id, amount),
        deposit_present(c) ==> deposit_err(c, program_id, amount) == ErrorCode::ConstraintViolation,
{
}

/// Mint pinning: a withdraw whose supplied mint differs from the one
/// recorded in the balance record fails a constraint check.
pub proof fn lemma_mint_pinning_withdraw(c: WithdrawToken, program_id: Seq<u8>, amount: u64)
    requires
        c.user_state->0.mint@ != c.token_mint@,
    ensures
        !withdraw_ok(c, program_id, amount),
        withdraw_present(c) ==> withdraw_err(c, program_id, amount)
            == ErrorCode::ConstraintViolation,
{
}

/// Ownership pinning for deposits: a user token account owned by someone
/// other than the signer, or a pool owned by someone other than the supplied
/// global authority, fails a constraint check.
pub proof fn lemma_ownership_pinning_deposit(c: DepositToken, program_id: Seq<u8>, amount: u64)
    requires
        c.user_token_account.owner@ != c.signer@ || c.token_pool.owner@
            != c.global_authority_address@,
    ensures
        !deposit_ok(c, program_id, amount),
        deposit_present(c) ==> deposit_err(c, program_id, amount) == ErrorCode::ConstraintViolation,
{
}

/// Ownership pinning for withdraws: a user token account owned by someone
/// other than the signer, or a pool owned by someone other than the supplied
/// global authority, fails a constraint check.
pub proof fn lemma_ownership_pinning_withdraw(c: WithdrawToken, program_id: Seq<u8>, amount: u64)
    requires
        c.user_token_account.owner@ != c.signer@ || c.token_pool.owner@
            != c.global_authority_address@,
    ensures
        !withdraw_ok(c, program_id, amount),
        withdraw_present(c) ==> withdraw_err(c, program_id, amount)
            == ErrorCode::ConstraintViolation,
{
}

/// The pool keeps covering the balance record: when the pool's balance
/// covers the record before a successful deposit, it covers it after, both
/// moving up by exactly the deposited amount.
pub proof fn lemma_pool_covers_record_deposit(c: DepositToken, program_id: Seq<u8>, amount: u64)
    requires
        deposit_ok(c, program_id, amount),
        c.user_state->0.amount <= c.token_pool.balance,
    ensures
        deposit_next(c, amount).user_state->0.amount <= deposit_next(c, amount).token_pool.balance,
        deposit_next(c, amount).token_pool.balance == c.token_pool.balance + amount,
{
}

/// The pool keeps covering the balance record: when the pool's balance
/// covers the record before a successful withdraw, it covers it after, both
/// moving down by exactly the withdrawn amount.
pub proof fn lemma_pool_covers_record_withdraw(c: WithdrawToken, program_id: Seq<u8>, amount: u64)
    requires
        withdraw_ok(c, program_id, amount),
        c.user_state->0.amount <= c.token_pool.balance,
    ensures
        withdraw_next(c, amount).user_state->0.amount <= withdraw_next(
            c,
            amount,
        ).token_pool.balance,
        withdraw_next(c, amount).token_pool.balance == c.token_pool.balance - amount,
{
}

} // verus!
