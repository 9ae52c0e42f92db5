//! The four operations that callers invoke.

use vstd::prelude::*;
use crate::close::CloseAccount;
use crate::error::VaultError;
use crate::initialize::{Initialize, InitializeBumps};
use crate::payment::Payment;

verus! {

/// What an initialization does when the bumps are those that its own
/// searches find.
pub open spec fn initialize_outcome(ctx: Initialize) -> Result<Initialize, VaultError> {
    match (ctx.found_state(), ctx.found_vault()) {
        (Some((_, state_bump)), Some((_, vault_bump))) => ctx.outcome(
            InitializeBumps { vault_state: state_bump, vault: vault_bump },
        ),
        _ => Err(VaultError::DerivationExhaustedError),
    }
}

/// Creates the record of the user in `ctx`.
///
/// The two bumps are searched here and stored in the new record. Refused
/// with `DerivationExhaustedError` where a search finds nothing; else with
/// `DerivationMismatchError` where the account named for the record or for
/// the vault is not at the address found; else with `AuthorizationError`
/// where the user did not sign; else with `AlreadyExistsError` where a record
/// is already there; else with `InsufficientFundsError` where the user cannot
/// pay the reservation. A refused initialization changes nothing. After a
/// successful one the stored bumps derive both addresses again.
pub fn initialize(ctx: &mut Initialize) -> (r: Result<(), VaultError>)
    requires
        old(ctx).wf(),
    ensures
        match initialize_outcome(*old(ctx)) {
            Ok(after) => r is Ok && *final(ctx) == after,
            Err(e) => r == Err::<(), VaultError>(e) && *final(ctx) == *old(ctx),
        },
        r is Ok ==> final(ctx).reproducible(),
        final(ctx).wf(),
{
    match ctx.find_bumps() {
        Ok(bumps) => ctx.initialize(&bumps),
        Err(e) => Err(e),
    }
}

/// Moves `amount` from the user in `ctx` to the vault. See `Payment::deposit`.
pub fn deposit(ctx: &mut Payment, amount: u64) -> (r: Result<(), VaultError>)
    requires
        old(ctx).wf(),
    ensures
        match old(ctx).deposit_outcome(amount) {
            Ok(after) => r is Ok && *final(ctx) == after,
            Err(e) => r == Err::<(), VaultError>(e) && *final(ctx) == *old(ctx),
        },
        final(ctx).vault_state == old(ctx).vault_state,
        final(ctx).user.balance + final(ctx).vault.balance
            == old(ctx).user.balance + old(ctx).vault.balance,
        final(ctx).wf(),
{
    ctx.deposit(amount)
}

/// Moves `amount` from the vault in `ctx` to the user. See
/// `Payment::withdraw`.
pub fn withdraw(ctx: &mut Payment, amount: u64) -> (r: Result<(), VaultError>)
    requires
        old(ctx).wf(),
    ensures
        match old(ctx).withdraw_outcome(amount) {
            Ok(after) => r is Ok && *final(ctx) == after,
            Err(e) => r == Err::<(), VaultError>(e) && *final(ctx) == *old(ctx),
        },
        !old(ctx).derivations_hold() ==> r == Err::<(), VaultError>(
            VaultError::DerivationMismatchError,
        ) && *final(ctx) == *old(ctx),
        final(ctx).vault_state == old(ctx).vault_state,
        final(ctx).user.balance + final(ctx).vault.balance
            == old(ctx).user.balance + old(ctx).vault.balance,
        final(ctx).wf(),
{
    ctx.withdraw(amount)
}

/// Sweeps the vault in `ctx` to the user and destroys the record. See
/// `CloseAccount::close`.
pub fn close(ctx: &mut CloseAccount) -> (r: Result<(), VaultError>)
    requires
        old(ctx).wf(),
    ensures
        match old(ctx).outcome() {
            Ok(after) => r is Ok && *final(ctx) == after,
            Err(e) => r == Err::<(), VaultError>(e) && *final(ctx) == *old(ctx),
        },
        !old(ctx).derivations_hold() ==> r == Err::<(), VaultError>(
            VaultError::DerivationMismatchError,
        ) && *final(ctx) == *old(ctx),
        r is Ok ==> {
            &&& final(ctx).vault.balance == 0
            &&& final(ctx).vault_state.record is None
            &&& final(ctx).user.balance == old(ctx).user.balance + old(ctx).vault.balance
                + old(ctx).vault_state.balance
        },
        final(ctx).wf(),
{
    ctx.close()
}

} // verus!
