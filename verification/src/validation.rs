//! The guard that every operation on an existing vault passes first.
//!
//! The accounts that an operation names are accepted only if a record exists
//! and the bumps stored in it derive, once more, the address of the record
//! from the user's identity and the address of the vault from the address of
//! the record; and if the user signed.

use vstd::prelude::*;
use crate::derivation::{address_view, bumped_seeds, rederive, rederived, STATE_TAG, VAULT_TAG};
use crate::error::VaultError;
use crate::identity::Identity;
use crate::state::{StateAccount, UserAccount, VaultAccount};

verus! {

/// The address that the stored state bump derives for the user. `None` when
/// there is no record, or when the bump gives no address.
pub open spec fn state_address(user: UserAccount, vault_state: StateAccount) -> Option<Seq<u8>> {
    match vault_state.record {
        Some(record) => rederived(STATE_TAG@, user.key@, record.state_bump),
        None => None,
    }
}

/// The address that the stored vault bump derives for the record's account.
/// `None` when there is no record, or when the bump gives no address.
pub open spec fn vault_address(vault_state: StateAccount) -> Option<Seq<u8>> {
    match vault_state.record {
        Some(record) => rederived(VAULT_TAG@, vault_state.key@, record.vault_bump),
        None => None,
    }
}

/// Whether a record exists and the two addresses derived again are those of
/// the accounts that were named.
pub open spec fn derivations_hold(
    vault_state: StateAccount,
    vault: VaultAccount,
    state_address: Option<Seq<u8>>,
    vault_address: Option<Seq<u8>>,
) -> bool {
    &&& vault_state.record is Some
    &&& state_address == Some(vault_state.key@)
    &&& vault_address == Some(vault.key@)
}

/// The reason for which the accounts are refused, if they are: a derivation
/// that does not hold comes before a missing signature.
pub open spec fn refusal(
    user: UserAccount,
    vault_state: StateAccount,
    vault: VaultAccount,
    state_address: Option<Seq<u8>>,
    vault_address: Option<Seq<u8>>,
) -> Option<VaultError> {
    if !derivations_hold(vault_state, vault, state_address, vault_address) {
        Some(VaultError::DerivationMismatchError)
    } else if !user.is_signer {
        Some(VaultError::AuthorizationError)
    } else {
        None
    }
}

/// The seeds with which the program signs for an account that it derived,
/// in the order in which they are hashed.
#[derive(Clone, Copy, Debug, PartialEq, Eq)]
pub struct SignerSeeds {
    /// The namespace tag.
    pub tag: [u8; 5],
    /// The identity from which the account's address derives.
    pub seed: [u8; 32],
    /// The bump of the account's address.
    pub bump: [u8; 1],
}

impl View for SignerSeeds {
    type V = Seq<Seq<u8>>;

    open spec fn view(&self) -> Seq<Seq<u8>> {
        seq![self.tag@, self.seed@, self.bump@]
    }
}

/// The seeds that stand in for the vault's signature when the program moves
/// value out of the vault: the tag `vault`, the address of the record's
/// account and the vault bump stored in the record. They derive the address
/// that `vault_address` gives, and there are none without a record.
pub fn signer_seeds(vault_state: &StateAccount) -> (seeds: Option<SignerSeeds>)
    ensures
        match seeds {
            Some(seeds) => {
                &&& vault_state.record matches Some(record)
                &&& seeds@ == bumped_seeds(VAULT_TAG@, vault_state.key@, record.vault_bump)
            },
            None => vault_state.record is None,
        },
{
    match vault_state.record {
        Some(record) => {
            let seeds = SignerSeeds {
                tag: VAULT_TAG,
                seed: vault_state.key.to_bytes(),
                bump: [record.vault_bump],
            };
            assert(seeds.bump@ =~= seq![record.vault_bump]);
            Some(seeds)
        },
        None => None,
    }
}

/// Derives again, from the bumps in the record, the address of the record and
/// the address of the vault. Both are `None` when there is no record.
pub fn rederive_accounts(user: &UserAccount, vault_state: &StateAccount) -> (addresses: (
    Option<Identity>,
    Option<Identity>,
))
    ensures
        address_view(addresses.0) == state_address(*user, *vault_state),
        address_view(addresses.1) == vault_address(*vault_state),
{
    match vault_state.record {
        Some(record) => {
            let state = rederive(STATE_TAG.as_slice(), &user.key, record.state_bump);
            let vault = rederive(VAULT_TAG.as_slice(), &vault_state.key, record.vault_bump);
            (state, vault)
        },
        None => (None, None),
    }
}

/// Decides whether the accounts are accepted, given the two addresses that
/// were derived again.
pub fn check_accounts(
    user: &UserAccount,
    vault_state: &StateAccount,
    vault: &VaultAccount,
    state_address: Option<Identity>,
    vault_address: Option<Identity>,
) -> (r: Result<(), VaultError>)
    ensures
        match refusal(
            *user,
            *vault_state,
            *vault,
            address_view(state_address),
            address_view(vault_address),
        ) {
            Some(e) => r == Err::<(), VaultError>(e),
            None => r is Ok,
        },
{
    if vault_state.record.is_none() || state_address != Some(vault_state.key) || vault_address
        != Some(vault.key) {
        Err(VaultError::DerivationMismatchError)
    } else if !user.is_signer {
        Err(VaultError::AuthorizationError)
    } else {
        Ok(())
    }
}

} // verus!
