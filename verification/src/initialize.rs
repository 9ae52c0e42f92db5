//! Initialization: the record of a new user is created and its bumps stored.

use vstd::prelude::*;
use crate::derivation::{bumped_seeds, derived, pair_view, STATE_TAG, VAULT_TAG};
use crate::error::VaultError;
use crate::identity::Identity;
use crate::state::{StateAccount, UserAccount, VaultAccount, VaultState};
use crate::validation::{derivations_hold, state_address, vault_address, SignerSeeds};

verus! {

/// The bumps that the two searches of an initialization settled on.
#[derive(Clone, Copy, Debug, PartialEq, Eq, Structural)]
pub struct InitializeBumps {
    /// Bump of the record's address.
    pub vault_state: u8,
    /// Bump of the vault's address.
    pub vault: u8,
}

/// The accounts that an initialization names.
#[derive(Clone, Copy, Debug, PartialEq, Eq)]
pub struct Initialize {
    /// The caller, who pays for the storage of the record.
    pub user: UserAccount,
    /// The account at which the record is to be created.
    pub vault_state: StateAccount,
    /// The vault that the record will derive. Only its address is read.
    pub vault: VaultAccount,
    /// What the host reserves for the storage of a record.
    pub reservation: u64,
}

impl Initialize {
    /// The value of the user and of the record's account together fits the
    /// balance type.
    pub open spec fn wf(&self) -> bool {
        self.user.balance + self.vault_state.balance <= u64::MAX
    }

    /// Whether the balances meet `wf`.
    pub fn balances_fit(&self) -> (fit: bool)
        ensures
            fit == self.wf(),
    {
        self.vault_state.balance <= u64::MAX - self.user.balance
    }

    /// What the search for the record's address gives: it starts from the tag
    /// `state` and the user's identity.
    pub open spec fn found_state(&self) -> Option<(Seq<u8>, u8)> {
        derived(STATE_TAG@, self.user.key@)
    }

    /// What the search for the vault's address gives: it starts from the tag
    /// `vault` and the address of the record, not from the user's identity.
    pub open spec fn found_vault(&self) -> Option<(Seq<u8>, u8)> {
        derived(VAULT_TAG@, self.vault_state.key@)
    }

    /// The reason for which the initialization is refused, if it is, given
    /// what the two searches found.
    pub open spec fn refusal_with(
        &self,
        bumps: InitializeBumps,
        found_state: Option<(Seq<u8>, u8)>,
        found_vault: Option<(Seq<u8>, u8)>,
    ) -> Option<VaultError> {
        if found_state is None || found_vault is None {
            Some(VaultError::DerivationExhaustedError)
        } else if found_state != Some((self.vault_state.key@, bumps.vault_state)) || found_vault
            != Some((self.vault.key@, bumps.vault)) {
            Some(VaultError::DerivationMismatchError)
        } else if !self.user.is_signer {
            Some(VaultError::AuthorizationError)
        } else if self.vault_state.record is Some {
            Some(VaultError::AlreadyExistsError)
        } else if self.reservation > self.user.balance {
            Some(VaultError::InsufficientFundsError)
        } else {
            None
        }
    }

    /// The accounts once the record exists: the user has paid the
    /// reservation to the record's account, and the record holds `bumps`.
    pub open spec fn created(self, bumps: InitializeBumps) -> Initialize {
        Initialize {
            user: UserAccount {
                balance: (self.user.balance - self.reservation) as u64,
                ..self.user
            },
            vault_state: StateAccount {
                balance: (self.vault_state.balance + self.reservation) as u64,
                record: Some(
                    VaultState { vault_bump: bumps.vault, state_bump: bumps.vault_state },
                ),
                ..self.vault_state
            },
            ..self
        }
    }

    /// What an initialization with `bumps` does, given what the two searches
    /// found: the accounts afterwards, or the reason for refusing.
    pub open spec fn outcome_with(
        self,
        bumps: InitializeBumps,
        found_state: Option<(Seq<u8>, u8)>,
        found_vault: Option<(Seq<u8>, u8)>,
    ) -> Result<Initialize, VaultError> {
        match self.refusal_with(bumps, found_state, found_vault) {
            Some(e) => Err(e),
            None => Ok(self.created(bumps)),
        }
    }

    /// What an initialization with `bumps` does.
    pub open spec fn outcome(self, bumps: InitializeBumps) -> Result<Initialize, VaultError> {
        self.outcome_with(bumps, self.found_state(), self.found_vault())
    }

    /// Whether the bumps in the record derive the addresses of the record
    /// and of the vault once more.
    pub open spec fn reproducible(&self) -> bool {
        derivations_hold(
            self.vault_state,
            self.vault,
            state_address(self.user, self.vault_state),
            vault_address(self.vault_state),
        )
    }

    /// Creates the record with `bumps`, given what the two searches found.
    /// `initialize` supplies that.
    ///
    /// Refused, in this order: where a search found nothing; where an
    /// address or a bump found is not the one named; where the user did not
    /// sign; where a record is already there; where the user cannot pay the
    /// reservation. A refused initialization changes nothing.
    pub fn initialize_with(
        &mut self,
        bumps: &InitializeBumps,
        found_state: Option<(Identity, u8)>,
        found_vault: Option<(Identity, u8)>,
    ) -> (r: Result<(), VaultError>)
        requires
            old(self).wf(),
        ensures
            match old(self).outcome_with(*bumps, pair_view(found_state), pair_view(found_vault)) {
                Ok(after) => r is Ok && *final(self) == after,
                Err(e) => r == Err::<(), VaultError>(e) && *final(self) == *old(self),
            },
            final(self).wf(),
    {
        if found_state.is_none() || found_vault.is_none() {
            return Err(VaultError::DerivationExhaustedError);
        }
        if found_state != Some((self.vault_state.key, bumps.vault_state)) || found_vault != Some(
            (self.vault.key, bumps.vault),
        ) {
            return Err(VaultError::DerivationMismatchError);
        }
        if !self.user.is_signer {
            return Err(VaultError::AuthorizationError);
        }
        if self.vault_state.record.is_some() {
            return Err(VaultError::AlreadyExistsError);
        }
        if self.reservation > self.user.balance {
            return Err(VaultError::InsufficientFundsError);
        }
        self.user.balance = self.user.balance - self.reservation;
        self.vault_state.balance = self.vault_state.balance + self.reservation;
        self.vault_state.record = Some(
            VaultState { vault_bump: bumps.vault, state_bump: bumps.vault_state },
        );
        Ok(())
    }

    /// Creates the user's record and stores `bumps` in it.
    ///
    /// The address of the record is searched from the tag `state` and the
    /// user's identity, that of the vault from the tag `vault` and the
    /// address of the record. Refused with `DerivationExhaustedError` where
    /// a search finds nothing; else with `DerivationMismatchError` where an
    /// account named, or a bump in `bumps`, is not what the searches found;
    /// else with `AuthorizationError` where the user did not sign; else with
    /// `AlreadyExistsError` where a record is already there; else with
    /// `InsufficientFundsError` where the user cannot pay the reservation.
    /// Otherwise the user pays the reservation to the record's account and
    /// the record holds `bumps`, from which both addresses derive again.
    pub fn initialize(&mut self, bumps: &InitializeBumps) -> (r: Result<(), VaultError>)
        requires
            old(self).wf(),
        ensures
            match old(self).outcome(*bumps) {
                Ok(after) => r is Ok && *final(self) == after,
                Err(e) => r == Err::<(), VaultError>(e) && *final(self) == *old(self),
            },
            r is Ok ==> final(self).reproducible(),
            final(self).wf(),
    {
        let found_state = found(crate::derivation::derive(STATE_TAG.as_slice(), &self.user.key));
        let found_vault = found(
            crate::derivation::derive(VAULT_TAG.as_slice(), &self.vault_state.key),
        );
        self.initialize_with(bumps, found_state, found_vault)
    }

    /// The seeds that stand in for the signature of the record's account
    /// when it is created: the tag `state`, the user's identity and the
    /// record's bump.
    pub fn record_seeds(&self, bumps: &InitializeBumps) -> (seeds: SignerSeeds)
        ensures
            seeds@ == bumped_seeds(STATE_TAG@, self.user.key@, bumps.vault_state),
    {
        let seeds = SignerSeeds {
            tag: STATE_TAG,
            seed: self.user.key.to_bytes(),
            bump: [bumps.vault_state],
        };
        assert(seeds.bump@ =~= seq![bumps.vault_state]);
        seeds
    }

    /// Searches the bumps of the two addresses of this user.
    pub fn find_bumps(&self) -> (r: Result<InitializeBumps, VaultError>)
        ensures
            match r {
                Ok(bumps) => {
                    &&& self.found_state() matches Some((_, state_bump))
                    &&& self.found_vault() matches Some((_, vault_bump))
                    &&& bumps == (InitializeBumps { vault_state: state_bump, vault: vault_bump })
                },
                Err(e) => {
                    &&& e == VaultError::DerivationExhaustedError
                    &&& (self.found_state() is None || self.found_vault() is None)
                },
            },
    {
        let (_, state_bump) = crate::derivation::derive(STATE_TAG.as_slice(), &self.user.key)?;
        let (_, vault_bump) = crate::derivation::derive(
            VAULT_TAG.as_slice(),
            &self.vault_state.key,
        )?;
        Ok(InitializeBumps { vault_state: state_bump, vault: vault_bump })
    }
}

/// A search's result as an optional pair.
fn found(r: Result<(Identity, u8), VaultError>) -> (pair: Option<(Identity, u8)>)
    ensures
        pair == r.ok(),
{
    match r {
        Ok(pair) => Some(pair),
        Err(_) => None,
    }
}

} // verus!
