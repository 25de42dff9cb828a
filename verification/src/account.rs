//! The persistent records the vault works with: the two records the program
//! owns, and the shape of the token-custody accounts it reads.

use vstd::prelude::*;

use crate::keys::Key;

verus! {

/// The singleton global record, stored at the address derived from the label
/// `"Global Pool"`. It records the administrator identity at initialization
/// and its own derived address doubles as the signing authority for every
/// token pool.
#[derive(Clone, Copy, Debug, PartialEq, Eq)]
pub struct GlobalPool {
    pub admin: Key,
}

/// One balance record per (user, mint) pair, stored at the address derived
/// from the mint key followed by the user key. `mint` never changes after
/// creation; `amount` is the running balance.
#[derive(Clone, Copy, Debug, PartialEq, Eq)]
pub struct UserState {
    pub amount: u64,
    pub mint: Key,
}

/// A token-custody account of the fungible-token program, as the vault reads
/// it: the mint it holds, the identity allowed to move it, and its balance.
/// The pool account of a mint is owned by the global authority address; a
/// user's account is owned by the user's signer key.
#[derive(Clone, Copy, Debug, PartialEq, Eq)]
pub struct TokenAccountState {
    pub mint: Key,
    pub owner: Key,
    pub balance: u64,
}

} // verus!
