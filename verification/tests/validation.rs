use vault_anchor::derivation::{rederive, STATE_TAG, VAULT_TAG};
use vault_anchor::error::VaultError;
use vault_anchor::identity::Identity;
use vault_anchor::state::{StateAccount, UserAccount, VaultAccount, VaultState};
use vault_anchor::validation::{check_accounts, rederive_accounts, signer_seeds, SignerSeeds};

fn key(n: u8) -> Identity {
    Identity::new([n; 32])
}

fn accounts() -> (UserAccount, StateAccount, VaultAccount) {
    (
        UserAccount { key: key(1), is_signer: true, balance: 0 },
        StateAccount {
            key: key(2),
            balance: 0,
            record: Some(VaultState { vault_bump: 250, state_bump: 251 }),
        },
        VaultAccount { key: key(3), balance: 0 },
    )
}

#[test]
fn identities_compare_by_their_bytes() {
    let mut bytes = [9u8; 32];
    assert_eq!(Identity::new(bytes), key(9));
    bytes[31] = 8;
    assert_ne!(Identity::new(bytes), key(9));
    assert_eq!(Identity::new(bytes).to_bytes(), bytes);
    assert_eq!(Identity::new(bytes).as_slice(), &bytes[..]);
    assert_eq!(vault_anchor::identity::IDENTITY_BYTES, 32);
}

#[test]
fn record_takes_ten_bytes() {
    assert_eq!(VaultState::INIT_SPACE, 10);
}

#[test]
fn check_accounts_accepts_what_derives() {
    let (user, state, vault) = accounts();
    assert_eq!(check_accounts(&user, &state, &vault, Some(key(2)), Some(key(3))), Ok(()));
}

#[test]
fn check_accounts_refuses_what_does_not_derive() {
    let (user, state, vault) = accounts();
    let mismatch = Err(VaultError::DerivationMismatchError);
    assert_eq!(check_accounts(&user, &state, &vault, Some(key(3)), Some(key(3))), mismatch);
    assert_eq!(check_accounts(&user, &state, &vault, Some(key(2)), Some(key(2))), mismatch);
    assert_eq!(check_accounts(&user, &state, &vault, None, Some(key(3))), mismatch);
    assert_eq!(check_accounts(&user, &state, &vault, Some(key(2)), None), mismatch);
    let gone = StateAccount { record: None, ..state };
    assert_eq!(check_accounts(&user, &gone, &vault, Some(key(2)), Some(key(3))), mismatch);
}

#[test]
fn check_accounts_refuses_an_unsigned_caller() {
    let (mut user, state, vault) = accounts();
    user.is_signer = false;
    assert_eq!(
        check_accounts(&user, &state, &vault, Some(key(2)), Some(key(3))),
        Err(VaultError::AuthorizationError)
    );
    assert_eq!(
        check_accounts(&user, &state, &vault, Some(key(2)), Some(key(4))),
        Err(VaultError::DerivationMismatchError)
    );
}

#[test]
fn rederive_accounts_uses_the_stored_bumps() {
    let (user, state, _) = accounts();
    let (state_address, vault_address) = rederive_accounts(&user, &state);
    assert_eq!(state_address, rederive(&STATE_TAG, &user.key, 251));
    assert_eq!(vault_address, rederive(&VAULT_TAG, &state.key, 250));
    let gone = StateAccount { record: None, ..state };
    assert_eq!(rederive_accounts(&user, &gone), (None, None));
}

#[test]
fn signer_seeds_are_tag_record_address_and_bump() {
    let (_, state, _) = accounts();
    assert_eq!(
        signer_seeds(&state),
        Some(SignerSeeds { tag: *b"vault", seed: [2; 32], bump: [250] })
    );
    let gone = StateAccount { record: None, ..state };
    assert_eq!(signer_seeds(&gone), None);
}
