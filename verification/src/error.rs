//! Reasons for which an operation is refused.

use vstd::prelude::*;

verus! {

/// Why an operation was refused. A refused operation changes nothing.
#[derive(Clone, Copy, Debug, PartialEq, Eq, Structural)]
pub enum VaultError {
    /// The caller did not sign.
    AuthorizationError,
    /// An account's address is not the one that its seeds and the stored
    /// bump derive, or there is no stored bump to derive it from.
    DerivationMismatchError,
    /// The source of a transfer holds less than the amount asked for.
    InsufficientFundsError,
    /// The state record to create is already there.
    AlreadyExistsError,
    /// No bump gives an address for the seeds.
    DerivationExhaustedError,
}

} // verus!
