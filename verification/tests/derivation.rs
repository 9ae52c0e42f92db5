use std::str::FromStr;

use anchor_lang::prelude::Pubkey;
use vault_anchor::derivation::{program_id, rederive, PROGRAM_ID, STATE_TAG, VAULT_TAG};
use vault_anchor::error::VaultError;
use vault_anchor::identity::Identity;

fn user(n: u8) -> Identity {
    let mut bytes = [0u8; 32];
    bytes[0] = n;
    bytes[31] = 7;
    Identity::new(bytes)
}

#[test]
fn program_id_is_the_declared_address() {
    let declared = Pubkey::from_str("6zqYkSP3apLHzqrZshzcry61Cz9i89DebuBMcNJxBQEi").unwrap();
    assert_eq!(declared.to_bytes(), PROGRAM_ID);
    assert_eq!(program_id().to_bytes(), PROGRAM_ID);
}

#[test]
fn tags_are_ascii() {
    assert_eq!(&STATE_TAG, b"state");
    assert_eq!(&VAULT_TAG, b"vault");
}

#[test]
fn derive_agrees_with_the_outside_search() {
    let program = Pubkey::new_from_array(PROGRAM_ID);
    for n in 0..20u8 {
        let u = user(n);
        let (address, bump) = vault_anchor::derivation::derive(&STATE_TAG, &u).unwrap();
        let (expected, expected_bump) =
            Pubkey::find_program_address(&[b"state", &u.to_bytes()], &program);
        assert_eq!(address.to_bytes(), expected.to_bytes());
        assert_eq!(bump, expected_bump);
        assert_ne!(address.to_bytes(), u.to_bytes());
    }
}

#[test]
fn derive_twice_gives_the_same_pair() {
    let u = user(3);
    let first = vault_anchor::derivation::derive(&VAULT_TAG, &u).unwrap();
    let second = vault_anchor::derivation::derive(&VAULT_TAG, &u).unwrap();
    assert_eq!(first.0.to_bytes(), second.0.to_bytes());
    assert_eq!(first.1, second.1);
}

#[test]
fn namespaces_give_different_addresses() {
    let u = user(9);
    let (state, _) = vault_anchor::derivation::derive(&STATE_TAG, &u).unwrap();
    let (vault, _) = vault_anchor::derivation::derive(&VAULT_TAG, &u).unwrap();
    assert_ne!(state.to_bytes(), vault.to_bytes());
}

#[test]
fn the_bump_found_rederives_the_address() {
    let u = user(11);
    let (address, bump) = vault_anchor::derivation::derive(&STATE_TAG, &u).unwrap();
    let again = rederive(&STATE_TAG, &u, bump).unwrap();
    assert_eq!(again.to_bytes(), address.to_bytes());
}

#[test]
fn another_bump_gives_another_address_or_none() {
    let u = user(12);
    let (address, bump) = vault_anchor::derivation::derive(&STATE_TAG, &u).unwrap();
    let other = bump.wrapping_sub(1);
    match rederive(&STATE_TAG, &u, other) {
        Some(a) => assert_ne!(a.to_bytes(), address.to_bytes()),
        None => {}
    }
}

#[test]
fn a_tag_longer_than_a_seed_may_be_derives_nothing() {
    let long = [1u8; 33];
    assert_eq!(
        vault_anchor::derivation::derive(&long, &user(1)).err(),
        Some(VaultError::DerivationExhaustedError)
    );
    assert!(rederive(&long, &user(1), 255).is_none());
}

#[test]
fn rederive_agrees_with_the_outside_function() {
    let program = Pubkey::new_from_array(PROGRAM_ID);
    let mut derived_some = 0;
    let mut derived_none = 0;
    for n in 0..4u8 {
        let u = user(n);
        for bump in 0..=255u8 {
            let expected =
                Pubkey::create_program_address(&[b"vault", &u.to_bytes(), &[bump]], &program).ok();
            let got = rederive(&VAULT_TAG, &u, bump);
            assert_eq!(got.map(|a| a.to_bytes()), expected.map(|a| a.to_bytes()));
            match got {
                Some(_) => derived_some += 1,
                None => derived_none += 1,
            }
        }
    }
    assert!(derived_some > 0);
    assert!(derived_none > 0);
}

#[test]
fn derive_returns_the_highest_bump_that_derives() {
    let mut below_the_first = 0;
    for n in 0..40u8 {
        let u = user(n);
        let (address, bump) = vault_anchor::derivation::derive(&STATE_TAG, &u).unwrap();
        assert!(bump >= 1);
        assert_eq!(rederive(&STATE_TAG, &u, bump), Some(address));
        let mut higher = 255u8;
        while higher > bump {
            assert_eq!(rederive(&STATE_TAG, &u, higher), None);
            higher -= 1;
        }
        if bump < 255 {
            below_the_first += 1;
        }
    }
    assert!(below_the_first > 0);
}

#[test]
fn the_order_of_the_seeds_matters() {
    let program = Pubkey::new_from_array(PROGRAM_ID);
    let u = user(5);
    let (address, bump) = vault_anchor::derivation::derive(&STATE_TAG, &u).unwrap();
    let swapped =
        Pubkey::create_program_address(&[&u.to_bytes(), b"state", &[bump]], &program).ok();
    assert_ne!(swapped.map(|a| a.to_bytes()), Some(address.to_bytes()));
}
