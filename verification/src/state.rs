//! The persisted record of a vault, and the accounts that an operation names.

use vstd::prelude::*;
use crate::identity::Identity;

verus! {

/// The record that is kept for one user: the two bumps from which the
/// record's own address and the vault's address are derived again.
///
/// Both bumps are set when the record is created and never written again.
#[derive(Clone, Copy, Debug, PartialEq, Eq, Structural)]
pub struct VaultState {
    /// Bump of the vault's address, derived from the tag `vault` and the
    /// address of this record.
    pub vault_bump: u8,
    /// Bump of this record's own address, derived from the tag `state` and
    /// the user's identity.
    pub state_bump: u8,
}

impl VaultState {
    /// Bytes that a stored record takes: the host's header of eight bytes,
    /// then one byte for each bump.
    pub const INIT_SPACE: usize = 8 + 1 + 1;
}

/// The caller's own account.
#[derive(Clone, Copy, Debug, PartialEq, Eq)]
pub struct UserAccount {
    /// The user's identity.
    pub key: Identity,
    /// Whether the user signed the operation.
    pub is_signer: bool,
    /// Native value that the account holds.
    pub balance: u64,
}

/// The account at which a user's record is kept.
#[derive(Clone, Copy, Debug, PartialEq, Eq)]
pub struct StateAccount {
    /// The address of the account.
    pub key: Identity,
    /// Native value reserved for the storage of the record.
    pub balance: u64,
    /// The record, while one exists at this address.
    pub record: Option<VaultState>,
}

/// The account that holds a user's deposits. It has no private key.
#[derive(Clone, Copy, Debug, PartialEq, Eq)]
pub struct VaultAccount {
    /// The address of the account.
    pub key: Identity,
    /// Native value that the vault holds.
    pub balance: u64,
}

} // verus!
