//! Program-address derivation. The host runtime maps a list of byte-string
//! seeds and a program id to a derived address outside the private-key space,
//! together with a bump byte; the same derivation, run off-chain, must yield
//! the same address the program expects. The derivation itself is an outside
//! computation; this module names its result and exposes the two derivations
//! the vault uses.

use vstd::prelude::*;

use crate::keys::{key_to_vec, Key};

verus! {

/// What the runtime's program-address derivation returns for a seed list and
/// a program id: the derived 32-byte address and its bump byte, or nothing in
/// the statistically improbable case that no bump pushes the result off the
/// ed25519 curve. The result is a function of the seeds and the program id
/// alone.
pub uninterp spec fn pda_of(seeds: Seq<Seq<u8>>, program_id: Seq<u8>) -> Option<(Seq<u8>, u8)>;

/// Relies on anchor_lang's `Pubkey::try_find_program_address`: the derivation
/// is a deterministic function of the seeds and the program id alone, it never
/// panics, and a returned address is exactly 32 bytes.
#[verifier::external_body]
fn find_pda(seeds: &Vec<Vec<u8>>, program_id: &Key) -> (r: Option<(Key, u8)>)
    ensures
        (match (r, pda_of(seeds.deep_view(), program_id@)) {
            (Some(p), Some(q)) => p.0@ == q.0 && p.1 == q.1,
            (None, None) => true,
            _ => false,
        }),
{
    let pid = anchor_lang::prelude::Pubkey::new_from_array(program_id.bytes);
    let seed_slices: Vec<&[u8]> = seeds.iter().map(|s| s.as_slice()).collect();
    match anchor_lang::prelude::Pubkey::try_find_program_address(&seed_slices, &pid) {
        Some((address, bump)) => Some((Key { bytes: address.to_bytes() }, bump)),
        None => None,
    }
}

/// The ASCII bytes of the label `"Global Pool"`, the seed of the global
/// authority address.
pub open spec fn global_label() -> Seq<u8> {
    seq![71u8, 108u8, 111u8, 98u8, 97u8, 108u8, 32u8, 80u8, 111u8, 111u8, 108u8]
}

/// The seed list of the global authority derivation.
pub open spec fn global_seeds() -> Seq<Seq<u8>> {
    seq![global_label()]
}

/// The seed list of the per-(user, mint) state derivation.
pub open spec fn user_state_seeds(mint: Seq<u8>, user: Seq<u8>) -> Seq<Seq<u8>> {
    seq![mint, user]
}

/// Whether `addr` is the address that the derivation yields for `seeds` under
/// `program_id`. Holds of no address at all when the derivation finds no bump.
pub open spec fn pda_matches(seeds: Seq<Seq<u8>>, program_id: Seq<u8>, addr: Seq<u8>) -> bool {
    match pda_of(seeds, program_id) {
        Some(ab) => ab.0 == addr,
        None => false,
    }
}

fn global_label_bytes() -> (v: Vec<u8>)
    ensures
        v@ == global_label(),
{
    let mut v: Vec<u8> = Vec::new();
    v.push(71);
    v.push(108);
    v.push(111);
    v.push(98);
    v.push(97);
    v.push(108);
    v.push(32);
    v.push(80);
    v.push(111);
    v.push(111);
    v.push(108);
    proof {
        assert(v@ =~= global_label());
    }
    v
}

/// The global authority address and its bump under `program_id`: the address
/// derived from the label `"Global Pool"` alone.
pub fn derive_global_authority(program_id: &Key) -> (r: Option<(Key, u8)>)
    ensures
        (match (r, pda_of(global_seeds(), program_id@)) {
            (Some(p), Some(q)) => p.0@ == q.0 && p.1 == q.1,
            (None, None) => true,
            _ => false,
        }),
{
    let mut seeds: Vec<Vec<u8>> = Vec::new();
    seeds.push(global_label_bytes());
    proof {
        assert(seeds.deep_view() =~~= global_seeds());
    }
    find_pda(&seeds, program_id)
}

/// The address of the balance record for `(token_mint, user)` and its bump
/// under `program_id`: the address derived from the mint key followed by the
/// user key.
pub fn derive_user_state_address(token_mint: &Key, user: &Key, program_id: &Key) -> (r: Option<
    (Key, u8),
>)
    ensures
        (match (r, pda_of(user_state_seeds(token_mint@, user@), program_id@)) {
            (Some(p), Some(q)) => p.0@ == q.0 && p.1 == q.1,
            (None, None) => true,
            _ => false,
        }),
{
    let mut seeds: Vec<Vec<u8>> = Vec::new();
    seeds.push(key_to_vec(token_mint));
    seeds.push(key_to_vec(user));
    proof {
        assert(seeds.deep_view() =~~= user_state_seeds(token_mint@, user@));
    }
    find_pda(&seeds, program_id)
}

} // verus!
