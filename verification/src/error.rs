//! The error surface of the vault. Every failure aborts the whole
//! transaction atomically; no partial state change persists.

use vstd::prelude::*;

verus! {

/// Why an entrypoint rejected a transaction.
#[derive(Clone, Copy, Debug, PartialEq, Eq)]
pub enum ErrorCode {
    /// A record that an initialization entrypoint would create already exists.
    AlreadyInitialized,
    /// A record that the entrypoint must read does not exist.
    NotInitialized,
    /// A passed-in account's derivation, mint or owner field does not match
    /// the expected value, or the required signature is missing.
    ConstraintViolation,
    /// Crediting the balance record would exceed the unsigned 64-bit range.
    ArithmeticOverflow,
    /// Debiting the balance record would take it below zero.
    ArithmeticUnderflow,
    /// The token program cannot perform the requested transfer: the source
    /// account holds too little, or the destination balance would wrap.
    TokenProgramFailure,
}

} // verus!
