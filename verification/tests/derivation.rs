use anchor_lang::prelude::Pubkey;
use firebird::keys::Key;
use firebird::pda::{derive_global_authority, derive_user_state_address};

fn key(n: u8) -> Key {
    Key::new([n; 32])
}

#[test]
fn global_authority_matches_runtime_derivation() {
    let program_id = key(3);
    let pid = Pubkey::new_from_array([3; 32]);
    let (expected, expected_bump) = Pubkey::find_program_address(&[b"Global Pool"], &pid);
    let (derived, bump) = derive_global_authority(&program_id).unwrap();
    assert_eq!(derived.bytes, expected.to_bytes());
    assert_eq!(bump, expected_bump);
}

#[test]
fn user_state_address_matches_runtime_derivation() {
    let program_id = key(3);
    let mint = key(7);
    let user = key(9);
    let pid = Pubkey::new_from_array([3; 32]);
    let (expected, expected_bump) =
        Pubkey::find_program_address(&[&[7u8; 32], &[9u8; 32]], &pid);
    let (derived, bump) = derive_user_state_address(&mint, &user, &program_id).unwrap();
    assert_eq!(derived.bytes, expected.to_bytes());
    assert_eq!(bump, expected_bump);
}

#[test]
fn derivation_is_deterministic() {
    let program_id = key(11);
    let mint = key(21);
    let user = key(22);
    let first = derive_user_state_address(&mint, &user, &program_id).unwrap();
    let second = derive_user_state_address(&mint, &user, &program_id).unwrap();
    assert_eq!(first.0, second.0);
    assert_eq!(first.1, second.1);
    let ga_first = derive_global_authority(&program_id).unwrap();
    let ga_second = derive_global_authority(&program_id).unwrap();
    assert_eq!(ga_first.0, ga_second.0);
    assert_eq!(ga_first.1, ga_second.1);
}

#[test]
fn derived_address_depends_on_inputs() {
    let program_id = key(11);
    let mint = key(21);
    let (for_one_user, _) = derive_user_state_address(&mint, &key(22), &program_id).unwrap();
    let (for_another, _) = derive_user_state_address(&mint, &key(23), &program_id).unwrap();
    assert_ne!(for_one_user, for_another);
    assert_ne!(for_one_user, program_id);
    assert_ne!(for_one_user, mint);
}
