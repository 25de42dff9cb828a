//! The ledger view of one balance record: how its amount evolves across a
//! sequence of successful deposits and withdraws, and the conservation
//! statement that the final amount is exactly the deposits minus the
//! withdraws.

use vstd::prelude::*;

verus! {

/// One successful balance movement on a record: a deposit or a withdraw of
/// the given amount.
#[derive(Clone, Copy, Debug, PartialEq, Eq)]
pub enum PoolOp {
    Deposit(u64),
    Withdraw(u64),
}

/// Whether the movement succeeds on a record holding `balance`: a deposit
/// must not overflow the unsigned 64-bit range, a withdraw must not exceed
/// the balance.
pub open spec fn op_ok(balance: u64, op: PoolOp) -> bool {
    match op {
        PoolOp::Deposit(amount) => balance + amount <= u64::MAX,
        PoolOp::Withdraw(amount) => amount <= balance,
    }
}

/// The balance after a successful movement.
pub open spec fn op_next(balance: u64, op: PoolOp) -> u64 {
    match op {
        PoolOp::Deposit(amount) => (balance + amount) as u64,
        PoolOp::Withdraw(amount) => (balance - amount) as u64,
    }
}

/// Whether every movement of the sequence succeeds, each on the balance the
/// previous ones left behind.
pub open spec fn ops_ok(balance: u64, ops: Seq<PoolOp>) -> bool
    decreases ops.len(),
{
    ops.len() == 0 || (op_ok(balance, ops.first()) && ops_ok(
        op_next(balance, ops.first()),
        ops.drop_first(),
    ))
}

/// The balance after the whole sequence.
pub open spec fn run_ops(balance: u64, ops: Seq<PoolOp>) -> u64
    decreases ops.len(),
{
    if ops.len() == 0 {
        balance
    } else {
        run_ops(op_next(balance, ops.first()), ops.drop_first())
    }
}

/// The sum of the deposited amounts of the sequence.
pub open spec fn sum_deposits(ops: Seq<PoolOp>) -> int
    decreases ops.len(),
{
    if ops.len() == 0 {
        0
    } else {
        (match ops.first() {
            PoolOp::Deposit(amount) => amount as int,
            PoolOp::Withdraw(_) => 0,
        }) + sum_deposits(ops.drop_first())
    }
}

/// The sum of the withdrawn amounts of the sequence.
pub open spec fn sum_withdraws(ops: Seq<PoolOp>) -> int
    decreases ops.len(),
{
    if ops.len() == 0 {
        0
    } else {
        (match ops.first() {
            PoolOp::Deposit(_) => 0,
            PoolOp::Withdraw(amount) => amount as int,
        }) + sum_withdraws(ops.drop_first())
    }
}

/// Balance conservation: after any sequence of successful deposits and
/// withdraws, the record holds its starting balance plus the sum of the
/// deposited amounts minus the sum of the withdrawn amounts.
pub proof fn lemma_balance_conservation(balance: u64, ops: Seq<PoolOp>)
    requires
        ops_ok(balance, ops),
    ensures
        run_ops(balance, ops) == balance + sum_deposits(ops) - sum_withdraws(ops),
    decreases ops.len(),
{
    if ops.len() > 0 {
        lemma_balance_conservation(op_next(balance, ops.first()), ops.drop_first());
    }
}

} // verus!
