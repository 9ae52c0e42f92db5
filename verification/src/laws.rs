//! What holds of the operations, over every input and every sequence of
//! payments.

use vstd::prelude::*;
use crate::close::CloseAccount;
use crate::derivation::{
    derive_returns, derived, rederived_under, search_from, FIRST_BUMP, PROGRAM_ID, STATE_TAG,
    VAULT_TAG,
};
use crate::error::VaultError;
use crate::identity::Identity;
use crate::initialize::{Initialize, InitializeBumps};
use crate::payment::Payment;
use crate::program::initialize_outcome;

verus! {

/// One payment: a deposit or a withdrawal of an amount.
pub enum Movement {
    /// From the user to the vault.
    Deposit(u64),
    /// From the vault to the user.
    Withdraw(u64),
}

/// The accounts after one payment. A refused payment leaves them as they
/// were.
pub open spec fn step(ctx: Payment, movement: Movement) -> Payment {
    let outcome = match movement {
        Movement::Deposit(amount) => ctx.deposit_outcome(amount),
        Movement::Withdraw(amount) => ctx.withdraw_outcome(amount),
    };
    match outcome {
        Ok(after) => after,
        Err(_) => ctx,
    }
}

/// The accounts after a sequence of payments, made in order.
pub open spec fn run(ctx: Payment, movements: Seq<Movement>) -> Payment
    decreases movements.len(),
{
    if movements.len() == 0 {
        ctx
    } else {
        step(run(ctx, movements.drop_last()), movements.last())
    }
}

/// What one payment adds to the user's balance.
pub open spec fn caller_balance_delta(ctx: Payment, movement: Movement) -> int {
    step(ctx, movement).user.balance - ctx.user.balance
}

/// What one payment adds to the vault's balance.
pub open spec fn vault_balance_delta(ctx: Payment, movement: Movement) -> int {
    step(ctx, movement).vault.balance - ctx.vault.balance
}

/// The accounts that an initialization leaves, named for a payment.
pub open spec fn payment_on(ctx: Initialize) -> Payment {
    Payment { user: ctx.user, vault_state: ctx.vault_state, vault: ctx.vault }
}

/// The accounts that a close leaves, named for a payment.
pub open spec fn payment_after(ctx: CloseAccount) -> Payment {
    Payment { user: ctx.user, vault_state: ctx.vault_state, vault: ctx.vault }
}

/// Derivation is a function of the tag and the identity alone: whatever
/// `derive` returns for them at one time, it returns at any other.
pub proof fn lemma_derivation_is_deterministic(
    namespace: Seq<u8>,
    seed: Seq<u8>,
    first: Result<(Identity, u8), VaultError>,
    second: Result<(Identity, u8), VaultError>,
)
    requires
        derive_returns(namespace, seed, first),
        derive_returns(namespace, seed, second),
    ensures
        first == second,
{
    if let Ok((a, _)) = first {
        if let Ok((b, _)) = second {
            Identity::lemma_view_decides(a, b);
        }
    }
}

/// What a search from `from` finds is the highest bump, not above `from`,
/// that derives an address, with that address; and where it finds nothing,
/// no bump from one to `from` derives an address.
pub proof fn lemma_search_takes_the_highest_bump(
    program: Seq<u8>,
    namespace: Seq<u8>,
    seed: Seq<u8>,
    from: u8,
)
    ensures
        match search_from(program, namespace, seed, from) {
            Some((address, bump)) => {
                &&& 1 <= bump <= from
                &&& rederived_under(program, namespace, seed, bump) == Some(address)
                &&& forall|higher: u8|
                    bump < higher <= from ==> #[trigger] rederived_under(
                        program,
                        namespace,
                        seed,
                        higher,
                    ) is None
            },
            None => forall|bump: u8|
                1 <= bump <= from ==> #[trigger] rederived_under(
                    program,
                    namespace,
                    seed,
                    bump,
                ) is None,
        },
    decreases from,
{
    if from > 0 {
        lemma_search_takes_the_highest_bump(program, namespace, seed, (from - 1) as u8);
    }
}

/// A payment, made or refused, writes neither the record nor its account,
/// nor the addresses, nor the signature.
pub proof fn lemma_payment_keeps_the_record(ctx: Payment, movement: Movement)
    ensures
        step(ctx, movement).vault_state == ctx.vault_state,
        step(ctx, movement).user.key == ctx.user.key,
        step(ctx, movement).user.is_signer == ctx.user.is_signer,
        step(ctx, movement).vault.key == ctx.vault.key,
{
}

/// A payment, made or refused, moves value only between the user and the
/// vault: what the one gains the other loses.
pub proof fn lemma_payment_conserves_value(ctx: Payment, movement: Movement)
    requires
        ctx.wf(),
    ensures
        caller_balance_delta(ctx, movement) + vault_balance_delta(ctx, movement) == 0,
        step(ctx, movement).wf(),
{
}

/// Through any sequence of deposits and withdrawals the record stays what
/// it was: the bumps stored in it are never written again.
pub proof fn lemma_payments_keep_the_record(ctx: Payment, movements: Seq<Movement>)
    ensures
        run(ctx, movements).vault_state == ctx.vault_state,
    decreases movements.len(),
{
    if movements.len() > 0 {
        lemma_payments_keep_the_record(ctx, movements.drop_last());
        lemma_payment_keeps_the_record(run(ctx, movements.drop_last()), movements.last());
    }
}

/// After an initialization that was accepted, the record holds the bumps
/// that the two searches found, and holds them still after any sequence of
/// deposits and withdrawals.
pub proof fn lemma_payments_keep_the_bumps(first: Initialize, movements: Seq<Movement>)
    requires
        initialize_outcome(first) is Ok,
    ensures
        ({
            let created = initialize_outcome(first)->Ok_0;
            let later = run(payment_on(created), movements);
            &&& created.vault_state.record matches Some(record)
            &&& derived(STATE_TAG@, first.user.key@) matches Some(
                (_, state_bump),
            )
            &&& derived(VAULT_TAG@, first.vault_state.key@) matches Some(
                (_, vault_bump),
            )
            &&& record.state_bump == state_bump
            &&& record.vault_bump == vault_bump
            &&& later.vault_state.record == Some(record)
        }),
{
    lemma_payments_keep_the_record(payment_on(initialize_outcome(first)->Ok_0), movements);
}

/// Through any sequence of deposits and withdrawals the user and the vault
/// together hold what they held at the start, and each payment of the
/// sequence by itself adds to the one balance what it takes from the other.
pub proof fn lemma_payments_conserve_value(ctx: Payment, movements: Seq<Movement>)
    requires
        ctx.wf(),
    ensures
        run(ctx, movements).wf(),
        run(ctx, movements).user.balance + run(ctx, movements).vault.balance == ctx.user.balance
            + ctx.vault.balance,
        forall|i: int|
            0 <= i < movements.len() ==> #[trigger] caller_balance_delta(
                run(ctx, movements.take(i)),
                movements[i],
            ) + vault_balance_delta(run(ctx, movements.take(i)), movements[i]) == 0,
    decreases movements.len(),
{
    if movements.len() > 0 {
        let front = movements.drop_last();
        lemma_payments_conserve_value(ctx, front);
        lemma_payment_conserves_value(run(ctx, front), movements.last());
        assert forall|i: int| 0 <= i < movements.len() implies #[trigger] caller_balance_delta(
            run(ctx, movements.take(i)),
            movements[i],
        ) + vault_balance_delta(run(ctx, movements.take(i)), movements[i]) == 0 by {
            if i < front.len() {
                assert(movements.take(i) =~= front.take(i));
                assert(movements[i] == front[i]);
            } else {
                assert(movements.take(i) =~= front);
            }
        }
    }
}

/// A withdrawal on accounts whose stored bumps do not derive the addresses
/// named is refused with `DerivationMismatchError`, whoever signed and
/// whatever the amount; and so is a deposit.
pub proof fn lemma_payment_mismatch_is_refused(ctx: Payment, amount: u64)
    requires
        !ctx.derivations_hold(),
    ensures
        ctx.withdraw_outcome(amount) == Err::<Payment, VaultError>(
            VaultError::DerivationMismatchError,
        ),
        ctx.deposit_outcome(amount) == Err::<Payment, VaultError>(
            VaultError::DerivationMismatchError,
        ),
        step(ctx, Movement::Withdraw(amount)) == ctx,
        step(ctx, Movement::Deposit(amount)) == ctx,
{
}

/// A close on accounts whose stored bumps do not derive the addresses named
/// is refused with `DerivationMismatchError`, whoever signed.
pub proof fn lemma_close_mismatch_is_refused(ctx: CloseAccount)
    requires
        !ctx.derivations_hold(),
    ensures
        ctx.outcome() == Err::<CloseAccount, VaultError>(VaultError::DerivationMismatchError),
{
}

/// Value leaves the vault only under the guard: a withdrawal or a close
/// that is accepted was signed by the user, on accounts whose stored bumps
/// derive the address of the record from the user's identity and the
/// address of the vault from the address of the record; and a withdrawal
/// takes no more than the vault holds.
pub proof fn lemma_accepted_means_authorized(payment: Payment, close: CloseAccount, amount: u64)
    ensures
        payment.withdraw_outcome(amount) is Ok ==> {
            &&& payment.user.is_signer
            &&& payment.derivations_hold()
            &&& amount <= payment.vault.balance
        },
        payment.deposit_outcome(amount) is Ok ==> {
            &&& payment.user.is_signer
            &&& payment.derivations_hold()
            &&& amount <= payment.user.balance
        },
        close.outcome() is Ok ==> close.user.is_signer && close.derivations_hold(),
{
}

/// Where there is no record, before an initialization or after a close,
/// every deposit, withdrawal and close is refused.
pub proof fn lemma_no_record_no_operation(payment: Payment, close: CloseAccount, amount: u64)
    ensures
        payment.vault_state.record is None ==> payment.withdraw_outcome(amount) is Err
            && payment.deposit_outcome(amount) is Err,
        close.vault_state.record is None ==> close.outcome() is Err,
{
}

/// Once a user's record has been created, an initialization that names the
/// same user, signed, and the same two accounts with the record in place is
/// refused with `AlreadyExistsError`, whatever the balances and the
/// reservation. In particular the same call made twice is refused the
/// second time.
pub proof fn lemma_second_initialize_is_refused(first: Initialize, second: Initialize)
    requires
        initialize_outcome(first) matches Ok(after) && {
            &&& second.user.key == after.user.key
            &&& second.user.is_signer
            &&& second.vault_state.key == after.vault_state.key
            &&& second.vault_state.record == after.vault_state.record
            &&& second.vault.key == after.vault.key
        },
    ensures
        initialize_outcome(second) == Err::<Initialize, VaultError>(
            VaultError::AlreadyExistsError,
        ),
        initialize_outcome(initialize_outcome(first)->Ok_0) == Err::<Initialize, VaultError>(
            VaultError::AlreadyExistsError,
        ),
{
}

/// The same for an initialization with bumps that the caller supplies: made
/// a second time on the accounts that the first left, it is refused with
/// `AlreadyExistsError`.
pub proof fn lemma_repeated_initialize_is_refused(first: Initialize, bumps: InitializeBumps)
    requires
        first.outcome(bumps) is Ok,
    ensures
        first.outcome(bumps)->Ok_0.outcome(bumps) == Err::<Initialize, VaultError>(
            VaultError::AlreadyExistsError,
        ),
{
}

/// After an initialization that was accepted, the bumps in the record
/// derive the address of the record from the user's identity and the address
/// of the vault from the address of the record. So a signed deposit of what
/// the user holds is accepted, and a signed withdrawal of what the vault
/// holds.
pub proof fn lemma_initialize_opens_the_vault(first: Initialize, amount: u64)
    requires
        initialize_outcome(first) is Ok,
    ensures
        ({
            let created = initialize_outcome(first)->Ok_0;
            let opened = payment_on(created);
            &&& created.reproducible()
            &&& opened.derivations_hold()
            &&& amount <= opened.user.balance ==> opened.deposit_outcome(amount) is Ok
            &&& amount <= opened.vault.balance ==> opened.withdraw_outcome(amount) is Ok
        }),
{
    lemma_search_takes_the_highest_bump(
        PROGRAM_ID@,
        STATE_TAG@,
        first.user.key@,
        FIRST_BUMP,
    );
    lemma_search_takes_the_highest_bump(
        PROGRAM_ID@,
        VAULT_TAG@,
        first.vault_state.key@,
        FIRST_BUMP,
    );
}

/// A close that is accepted leaves the vault empty and no record, and the
/// user richer by what the vault held and what was reserved for the record.
/// Every later payment or close on these accounts is refused.
pub proof fn lemma_close_is_final(ctx: CloseAccount, amount: u64)
    requires
        ctx.wf(),
        ctx.outcome() is Ok,
    ensures
        ({
            let after = ctx.outcome()->Ok_0;
            &&& after.vault.balance == 0
            &&& after.vault_state.balance == 0
            &&& after.vault_state.record is None
            &&& after.user.balance == ctx.user.balance + ctx.vault.balance
                + ctx.vault_state.balance
            &&& payment_after(after).withdraw_outcome(amount) == Err::<Payment, VaultError>(
                VaultError::DerivationMismatchError,
            )
            &&& payment_after(after).deposit_outcome(amount) == Err::<Payment, VaultError>(
                VaultError::DerivationMismatchError,
            )
            &&& after.outcome() == Err::<CloseAccount, VaultError>(
                VaultError::DerivationMismatchError,
            )
        }),
{
}

/// Where nothing is reserved for the record, a close that is accepted
/// raises the user's balance by exactly what the vault held, and leaves the
/// vault empty and no record: a withdrawal that follows is refused.
pub proof fn lemma_close_is_total(ctx: CloseAccount, amount: u64)
    requires
        ctx.wf(),
        ctx.outcome() is Ok,
        ctx.vault_state.balance == 0,
    ensures
        ({
            let after = ctx.outcome()->Ok_0;
            &&& after.vault.balance == 0
            &&& after.user.balance == ctx.user.balance + ctx.vault.balance
            &&& after.vault_state.record is None
            &&& payment_after(after).withdraw_outcome(amount) is Err
        }),
{
}

} // verus!
