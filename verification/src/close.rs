//! Close: the vault is swept to the user and the record destroyed.

use vstd::prelude::*;
use crate::derivation::address_view;
use crate::error::VaultError;
use crate::identity::Identity;
use crate::state::{StateAccount, UserAccount, VaultAccount};
use crate::validation::{
    check_accounts, derivations_hold, rederive_accounts, refusal, state_address, vault_address,
};

verus! {

/// The accounts that a close names.
#[derive(Clone, Copy, Debug, PartialEq, Eq)]
pub struct CloseAccount {
    /// The caller, who owns the record and receives what is left.
    pub user: UserAccount,
    /// The vault to sweep.
    pub vault: VaultAccount,
    /// The account of the record to destroy.
    pub vault_state: StateAccount,
}

impl CloseAccount {
    /// The value of the three accounts together fits the balance type.
    pub open spec fn wf(&self) -> bool {
        self.user.balance + self.vault.balance + self.vault_state.balance <= u64::MAX
    }

    /// Whether the balances meet `wf`.
    pub fn balances_fit(&self) -> (fit: bool)
        ensures
            fit == self.wf(),
    {
        self.vault.balance <= u64::MAX - self.user.balance && self.vault_state.balance <= u64::MAX
            - self.user.balance - self.vault.balance
    }

    /// Whether the stored bumps derive the two addresses that were named.
    pub open spec fn derivations_hold(&self) -> bool {
        derivations_hold(
            self.vault_state,
            self.vault,
            state_address(self.user, self.vault_state),
            vault_address(self.vault_state),
        )
    }

    /// The reason for which the guard refuses these accounts, given the two
    /// addresses that were derived again.
    pub open spec fn refusal_with(
        &self,
        state_address: Option<Seq<u8>>,
        vault_address: Option<Seq<u8>>,
    ) -> Option<VaultError> {
        refusal(self.user, self.vault_state, self.vault, state_address, vault_address)
    }

    /// The accounts after the close: the user holds what the vault held and
    /// what was reserved for the record, the vault and the record's account
    /// hold nothing, and there is no record.
    pub open spec fn swept(self) -> CloseAccount {
        CloseAccount {
            user: UserAccount {
                balance: (self.user.balance + self.vault.balance
                    + self.vault_state.balance) as u64,
                ..self.user
            },
            vault: VaultAccount { balance: 0, ..self.vault },
            vault_state: StateAccount { balance: 0, record: None, ..self.vault_state },
        }
    }

    /// What a close does, given the two addresses that were derived again:
    /// the accounts afterwards, or the reason for refusing.
    pub open spec fn outcome_with(
        self,
        state_address: Option<Seq<u8>>,
        vault_address: Option<Seq<u8>>,
    ) -> Result<CloseAccount, VaultError> {
        match self.refusal_with(state_address, vault_address) {
            Some(e) => Err(e),
            None => Ok(self.swept()),
        }
    }

    /// What a close does.
    pub open spec fn outcome(self) -> Result<CloseAccount, VaultError> {
        self.outcome_with(
            state_address(self.user, self.vault_state),
            vault_address(self.vault_state),
        )
    }

    /// Closes the vault, given the two addresses that the stored bumps
    /// derived. `close` supplies them.
    ///
    /// The guard comes first. Then the whole balance that the vault holds at
    /// this moment goes to the user, the record is destroyed and what was
    /// reserved for it goes to the user too. A refused close changes
    /// nothing: there is no partial close.
    pub fn close_with(
        &mut self,
        state_address: Option<Identity>,
        vault_address: Option<Identity>,
    ) -> (r: Result<(), VaultError>)
        requires
            old(self).wf(),
        ensures
            match old(self).outcome_with(address_view(state_address), address_view(vault_address)) {
                Ok(after) => r is Ok && *final(self) == after,
                Err(e) => r == Err::<(), VaultError>(e) && *final(self) == *old(self),
            },
            final(self).wf(),
    {
        check_accounts(&self.user, &self.vault_state, &self.vault, state_address, vault_address)?;
        let swept: u64 = self.vault.balance;
        self.vault.balance = 0;
        self.user.balance = self.user.balance + swept;
        let refund: u64 = self.vault_state.balance;
        self.vault_state.balance = 0;
        self.vault_state.record = None;
        self.user.balance = self.user.balance + refund;
        Ok(())
    }

    /// Sweeps the vault to the user and destroys the record.
    ///
    /// Refused with `DerivationMismatchError` where no record exists or the
    /// stored bumps do not derive the addresses of the record and the vault;
    /// else with `AuthorizationError` where the user did not sign. Otherwise
    /// the vault is left empty, the record is gone, and the user has gained
    /// exactly what the vault held and what was reserved for the record. The
    /// three balances together never change.
    pub fn close(&mut self) -> (r: Result<(), VaultError>)
        requires
            old(self).wf(),
        ensures
            match old(self).outcome() {
                Ok(after) => r is Ok && *final(self) == after,
                Err(e) => r == Err::<(), VaultError>(e) && *final(self) == *old(self),
            },
            !old(self).derivations_hold() ==> r == Err::<(), VaultError>(
                VaultError::DerivationMismatchError,
            ) && *final(self) == *old(self),
            r is Ok ==> {
                &&& final(self).vault.balance == 0
                &&& final(self).vault_state.record is None
                &&& final(self).user.balance == old(self).user.balance + old(self).vault.balance
                    + old(self).vault_state.balance
            },
            final(self).user.balance + final(self).vault.balance
                + final(self).vault_state.balance
                == old(self).user.balance + old(self).vault.balance
                + old(self).vault_state.balance,
            final(self).wf(),
    {
        let (state_address, vault_address) = rederive_accounts(&self.user, &self.vault_state);
        self.close_with(state_address, vault_address)
    }
}

} // verus!
