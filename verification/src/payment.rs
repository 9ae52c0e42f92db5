//! Deposit and withdraw: value moves between the user and the vault.

use vstd::prelude::*;
use crate::derivation::address_view;
use crate::error::VaultError;
use crate::identity::Identity;
use crate::state::{StateAccount, UserAccount, VaultAccount};
use crate::validation::{
    check_accounts, derivations_hold, rederive_accounts, refusal, state_address, vault_address,
};

verus! {

/// The accounts that a deposit or a withdrawal names.
#[derive(Clone, Copy, Debug, PartialEq, Eq)]
pub struct Payment {
    /// The caller, who pays in or is paid out.
    pub user: UserAccount,
    /// The account of the caller's record.
    pub vault_state: StateAccount,
    /// The vault that the record derives.
    pub vault: VaultAccount,
}

impl Payment {
    /// The value of the user and of the vault together fits the balance type.
    pub open spec fn wf(&self) -> bool {
        self.user.balance + self.vault.balance <= u64::MAX
    }

    /// Whether the balances meet `wf`.
    pub fn balances_fit(&self) -> (fit: bool)
        ensures
            fit == self.wf(),
    {
        self.vault.balance <= u64::MAX - self.user.balance
    }

    /// Whether the stored bumps derive the two addresses that were named.
    pub open spec fn derivations_hold(&self) -> bool {
        derivations_hold(
            self.vault_state,
            self.vault,
            state_address(self.user, self.vault_state),
            vault_address(self.vault_state),
        )
    }

    /// The reason for which the guard refuses these accounts, given the two
    /// addresses that were derived again.
    pub open spec fn refusal_with(
        &self,
        state_address: Option<Seq<u8>>,
        vault_address: Option<Seq<u8>>,
    ) -> Option<VaultError> {
        refusal(self.user, self.vault_state, self.vault, state_address, vault_address)
    }

    /// The accounts after `amount` has moved from the user to the vault.
    pub open spec fn paid_in(self, amount: u64) -> Payment {
        Payment {
            user: UserAccount { balance: (self.user.balance - amount) as u64, ..self.user },
            vault: VaultAccount { balance: (self.vault.balance + amount) as u64, ..self.vault },
            ..self
        }
    }

    /// The accounts after `amount` has moved from the vault to the user.
    pub open spec fn paid_out(self, amount: u64) -> Payment {
        Payment {
            user: UserAccount { balance: (self.user.balance + amount) as u64, ..self.user },
            vault: VaultAccount { balance: (self.vault.balance - amount) as u64, ..self.vault },
            ..self
        }
    }

    /// What a deposit of `amount` does, given the two addresses that were
    /// derived again: the accounts afterwards, or the reason for refusing.
    pub open spec fn deposit_outcome_with(
        self,
        amount: u64,
        state_address: Option<Seq<u8>>,
        vault_address: Option<Seq<u8>>,
    ) -> Result<Payment, VaultError> {
        match self.refusal_with(state_address, vault_address) {
            Some(e) => Err(e),
            None => if amount > self.user.balance {
                Err(VaultError::InsufficientFundsError)
            } else {
                Ok(self.paid_in(amount))
            },
        }
    }

    /// What a withdrawal of `amount` does, given the two addresses that were
    /// derived again: the accounts afterwards, or the reason for refusing.
    pub open spec fn withdraw_outcome_with(
        self,
        amount: u64,
        state_address: Option<Seq<u8>>,
        vault_address: Option<Seq<u8>>,
    ) -> Result<Payment, VaultError> {
        match self.refusal_with(state_address, vault_address) {
            Some(e) => Err(e),
            None => if amount > self.vault.balance {
                Err(VaultError::InsufficientFundsError)
            } else {
                Ok(self.paid_out(amount))
            },
        }
    }

    /// What a deposit of `amount` does.
    pub open spec fn deposit_outcome(self, amount: u64) -> Result<Payment, VaultError> {
        self.deposit_outcome_with(
            amount,
            state_address(self.user, self.vault_state),
            vault_address(self.vault_state),
        )
    }

    /// What a withdrawal of `amount` does.
    pub open spec fn withdraw_outcome(self, amount: u64) -> Result<Payment, VaultError> {
        self.withdraw_outcome_with(
            amount,
            state_address(self.user, self.vault_state),
            vault_address(self.vault_state),
        )
    }

    /// Deposits `amount`, given the two addresses that the stored bumps
    /// derived. `deposit` supplies them.
    ///
    /// The guard comes first; then the user must hold `amount`. The value
    /// moves from the user to the vault, and nothing else changes. A refused
    /// deposit changes nothing.
    pub fn deposit_with(
        &mut self,
        amount: u64,
        state_address: Option<Identity>,
        vault_address: Option<Identity>,
    ) -> (r: Result<(), VaultError>)
        requires
            old(self).wf(),
        ensures
            match old(self).deposit_outcome_with(
                amount,
                address_view(state_address),
                address_view(vault_address),
            ) {
                Ok(after) => r is Ok && *final(self) == after,
                Err(e) => r == Err::<(), VaultError>(e) && *final(self) == *old(self),
            },
            final(self).wf(),
    {
        check_accounts(&self.user, &self.vault_state, &self.vault, state_address, vault_address)?;
        if amount > self.user.balance {
            return Err(VaultError::InsufficientFundsError);
        }
        self.user.balance = self.user.balance - amount;
        self.vault.balance = self.vault.balance + amount;
        Ok(())
    }

    /// Withdraws `amount`, given the two addresses that the stored bumps
    /// derived. `withdraw` supplies them.
    ///
    /// The guard comes first: the vault pays out only where its address is
    /// the one that the tag `vault`, the record's address and the stored bump
    /// derive. Then the vault must hold `amount`. The value moves from the
    /// vault to the user, and nothing else changes. A refused withdrawal
    /// changes nothing.
    pub fn withdraw_with(
        &mut self,
        amount: u64,
        state_address: Option<Identity>,
        vault_address: Option<Identity>,
    ) -> (r: Result<(), VaultError>)
        requires
            old(self).wf(),
        ensures
            match old(self).withdraw_outcome_with(
                amount,
                address_view(state_address),
                address_view(vault_address),
            ) {
                Ok(after) => r is Ok && *final(self) == after,
                Err(e) => r == Err::<(), VaultError>(e) && *final(self) == *old(self),
            },
            final(self).wf(),
    {
        check_accounts(&self.user, &self.vault_state, &self.vault, state_address, vault_address)?;
        if amount > self.vault.balance {
            return Err(VaultError::InsufficientFundsError);
        }
        self.vault.balance = self.vault.balance - amount;
        self.user.balance = self.user.balance + amount;
        Ok(())
    }

    /// Moves `amount` from the user to the vault.
    ///
    /// Refused with `DerivationMismatchError` where no record exists or the
    /// stored bumps do not derive the addresses of the record and the vault;
    /// else with `AuthorizationError` where the user did not sign; else with
    /// `InsufficientFundsError` where the user holds less than `amount`.
    /// Otherwise the user's balance falls by `amount` and the vault's rises
    /// by it. The record is never written, and the two balances together
    /// never change.
    pub fn deposit(&mut self, amount: u64) -> (r: Result<(), VaultError>)
        requires
            old(self).wf(),
        ensures
            match old(self).deposit_outcome(amount) {
                Ok(after) => r is Ok && *final(self) == after,
                Err(e) => r == Err::<(), VaultError>(e) && *final(self) == *old(self),
            },
            final(self).vault_state == old(self).vault_state,
            final(self).user.balance + final(self).vault.balance
                == old(self).user.balance + old(self).vault.balance,
            final(self).wf(),
    {
        let (state_address, vault_address) = rederive_accounts(&self.user, &self.vault_state);
        self.deposit_with(amount, state_address, vault_address)
    }

    /// Moves `amount` from the vault to the user.
    ///
    /// Refused with `DerivationMismatchError` where no record exists or the
    /// stored bumps do not derive the addresses of the record and the vault;
    /// else with `AuthorizationError` where the user did not sign; else with
    /// `InsufficientFundsError` where the vault holds less than `amount`.
    /// Otherwise the vault's balance falls by `amount` and the user's rises
    /// by it. The record is never written, and the two balances together
    /// never change.
    pub fn withdraw(&mut self, amount: u64) -> (r: Result<(), VaultError>)
        requires
            old(self).wf(),
        ensures
            match old(self).withdraw_outcome(amount) {
                Ok(after) => r is Ok && *final(self) == after,
                Err(e) => r == Err::<(), VaultError>(e) && *final(self) == *old(self),
            },
            !old(self).derivations_hold() ==> r == Err::<(), VaultError>(
                VaultError::DerivationMismatchError,
            ) && *final(self) == *old(self),
            final(self).vault_state == old(self).vault_state,
            final(self).user.balance + final(self).vault.balance
                == old(self).user.balance + old(self).vault.balance,
            final(self).wf(),
    {
        let (state_address, vault_address) = rederive_accounts(&self.user, &self.vault_state);
        self.withdraw_with(amount, state_address, vault_address)
    }
}

} // verus!
