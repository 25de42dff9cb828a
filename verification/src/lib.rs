//! A minimal custodial token vault: users deposit a fungible token into a
//! program-controlled pool and later withdraw the same amount, while the
//! program tracks each user's per-mint balance in a dedicated record.
//!
//! The verified core is the deposit/withdraw state machine together with the
//! address-derivation scheme that names the global signing authority and each
//! per-user balance record. The host runtime's account storage, transaction
//! dispatch and the token program's transfers stay outside; the library
//! decides, for every account set handed in, whether an entrypoint succeeds
//! and what every record holds afterwards.

pub mod account;
pub mod error;
pub mod keys;
pub mod laws;
pub mod ledger;
pub mod pda;
pub mod vault;
