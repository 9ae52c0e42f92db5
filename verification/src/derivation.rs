//! Program-derived addresses.
//!
//! An address is derived from a namespace tag, a seed identity, a bump byte
//! and the identity of the program. It has no private key, so only the
//! program can authorize spending from the account it names. Hashing the
//! seeds and testing the hash for a private key is the work of
//! `anchor_lang`'s `Pubkey`; this module names what that gives for one bump,
//! and states the search for a bump over that name.

use vstd::prelude::*;
use anchor_lang::prelude::Pubkey;
use crate::identity::Identity;
use crate::error::VaultError;

verus! {

/// The address of this program, under which every vault address is derived.
pub const PROGRAM_ID: [u8; 32] = [
    89, 27, 110, 247, 124, 112, 39, 22, 151, 51, 209, 92, 1, 67, 103, 102,
    67, 220, 67, 70, 173, 60, 245, 221, 255, 122, 44, 85, 69, 206, 111, 183,
];

/// Namespace tag of state records: the ASCII bytes of `state`.
pub const STATE_TAG: [u8; 5] = [115, 116, 97, 116, 101];

/// Namespace tag of vaults: the ASCII bytes of `vault`.
pub const VAULT_TAG: [u8; 5] = [118, 97, 117, 108, 116];

/// The highest bump, at which a search starts.
pub const FIRST_BUMP: u8 = 255;

/// What `Pubkey::create_program_address` returns for `seeds` under
/// `program`: the derived address, or `None` when it reports an error.
pub uninterp spec fn program_address(seeds: Seq<Seq<u8>>, program: Seq<u8>) -> Option<Seq<u8>>;

/// The seeds of a derivation: the tag, the seed identity, then the bump as a
/// seed of one byte.
pub open spec fn bumped_seeds(namespace: Seq<u8>, seed: Seq<u8>, bump: u8) -> Seq<Seq<u8>> {
    seq![namespace, seed, seq![bump]]
}

/// The address that `bump` derives under `program`, if it derives one.
pub open spec fn rederived_under(
    program: Seq<u8>,
    namespace: Seq<u8>,
    seed: Seq<u8>,
    bump: u8,
) -> Option<Seq<u8>> {
    program_address(bumped_seeds(namespace, seed, bump), program)
}

/// Whether `bump` is the highest bump that derives an address, and `address`
/// is that address. The bump zero is never used.
pub open spec fn is_first(
    program: Seq<u8>,
    namespace: Seq<u8>,
    seed: Seq<u8>,
    address: Seq<u8>,
    bump: u8,
) -> bool {
    &&& bump >= 1
    &&& rederived_under(program, namespace, seed, bump) == Some(address)
    &&& forall|higher: u8|
        bump < higher ==> #[trigger] rederived_under(program, namespace, seed, higher) is None
}

/// Whether no bump from one upwards derives an address.
pub open spec fn none_derives(program: Seq<u8>, namespace: Seq<u8>, seed: Seq<u8>) -> bool {
    forall|bump: u8|
        bump >= 1 ==> #[trigger] rederived_under(program, namespace, seed, bump) is None
}

/// The search for a bump, from `bump` downwards: the first bump that derives
/// an address, with that address. It stops above zero.
pub open spec fn search_from(
    program: Seq<u8>,
    namespace: Seq<u8>,
    seed: Seq<u8>,
    bump: u8,
) -> Option<(Seq<u8>, u8)>
    decreases bump,
{
    if bump == 0 {
        None
    } else {
        match rederived_under(program, namespace, seed, bump) {
            Some(address) => Some((address, bump)),
            None => search_from(program, namespace, seed, (bump - 1) as u8),
        }
    }
}

/// The address and bump that a search derives under this program.
pub open spec fn derived(namespace: Seq<u8>, seed: Seq<u8>) -> Option<(Seq<u8>, u8)> {
    search_from(PROGRAM_ID@, namespace, seed, FIRST_BUMP)
}

/// The address that a known bump derives under this program.
pub open spec fn rederived(namespace: Seq<u8>, seed: Seq<u8>, bump: u8) -> Option<Seq<u8>> {
    rederived_under(PROGRAM_ID@, namespace, seed, bump)
}

/// An address with its bump, as plain values.
pub open spec fn pair_view(pair: Option<(Identity, u8)>) -> Option<(Seq<u8>, u8)> {
    match pair {
        Some((address, bump)) => Some((address@, bump)),
        None => None,
    }
}

/// An address, as plain values.
pub open spec fn address_view(address: Option<Identity>) -> Option<Seq<u8>> {
    match address {
        Some(address) => Some(address@),
        None => None,
    }
}

/// A search from `from` finds the highest bump that derives an address.
proof fn lemma_search_finds_first(
    program: Seq<u8>,
    namespace: Seq<u8>,
    seed: Seq<u8>,
    address: Seq<u8>,
    bump: u8,
    from: u8,
)
    requires
        is_first(program, namespace, seed, address, bump),
        bump <= from,
    ensures
        search_from(program, namespace, seed, from) == Some((address, bump)),
    decreases from,
{
    if from > bump {
        assert(rederived_under(program, namespace, seed, from) is None);
        lemma_search_finds_first(program, namespace, seed, address, bump, (from - 1) as u8);
    }
}

/// A search finds nothing where no bump derives an address.
proof fn lemma_search_finds_nothing(
    program: Seq<u8>,
    namespace: Seq<u8>,
    seed: Seq<u8>,
    from: u8,
)
    requires
        none_derives(program, namespace, seed),
    ensures
        search_from(program, namespace, seed, from) is None,
    decreases from,
{
    if from > 0 {
        assert(rederived_under(program, namespace, seed, from) is None);
        lemma_search_finds_nothing(program, namespace, seed, (from - 1) as u8);
    }
}

/// Calls `Pubkey::try_find_program_address` with the seeds `namespace` and
/// `seed`.
///
/// Trusted: the outside search tries the bumps from 255 down to 1, each as a
/// last seed of one byte handed to `Pubkey::create_program_address`, and
/// returns the first address that this gives, with its bump. It returns
/// `None` where no bump gives an address.
#[verifier::external_body]
fn find_address(namespace: &[u8], seed: &Identity, program: &Identity) -> (found: Option<
    (Identity, u8),
>)
    ensures
        match found {
            Some((address, bump)) => is_first(program@, namespace@, seed@, address@, bump),
            None => none_derives(program@, namespace@, seed@),
        },
{
    let program_key = Pubkey::new_from_array(program.to_bytes());
    match Pubkey::try_find_program_address(&[namespace, seed.as_slice()], &program_key) {
        Some((address, bump)) => Some((Identity::new(address.to_bytes()), bump)),
        None => None,
    }
}

/// Calls `Pubkey::create_program_address` with the seeds `namespace`, `seed`
/// and the one byte `bump`.
///
/// Trusted: the result is what the outside function returns for these
/// arguments, with any error it reports turned into `None`.
#[verifier::external_body]
fn create_address(namespace: &[u8], seed: &Identity, bump: u8, program: &Identity) -> (address:
    Option<Identity>)
    ensures
        address_view(address) == program_address(bumped_seeds(namespace@, seed@, bump), program@),
{
    let program_key = Pubkey::new_from_array(program.to_bytes());
    match Pubkey::create_program_address(&[namespace, seed.as_slice(), &[bump]], &program_key) {
        Ok(address) => Some(Identity::new(address.to_bytes())),
        Err(_) => None,
    }
}

/// What `derive` returns for a tag and an identity: the pair that the search
/// finds, or `DerivationExhaustedError` where it finds none.
pub open spec fn derive_returns(
    namespace: Seq<u8>,
    seed: Seq<u8>,
    r: Result<(Identity, u8), VaultError>,
) -> bool {
    match r {
        Ok((address, bump)) => {
            &&& derived(namespace, seed) == Some((address@, bump))
            &&& rederived(namespace, seed, bump) == Some(address@)
        },
        Err(e) => {
            &&& e == VaultError::DerivationExhaustedError
            &&& derived(namespace, seed) is None
        },
    }
}

/// The identity of this program.
pub fn program_id() -> (id: Identity)
    ensures
        id@ == PROGRAM_ID@,
{
    Identity::new(PROGRAM_ID)
}

/// Derives the address of `seed_identity` in the namespace `namespace_tag`,
/// and the bump that gives it.
///
/// The bumps are tried from the highest down, and the first that derives an
/// address is returned with that address. The result is a function of the
/// two arguments alone: whoever holds the same tag and identity derives the
/// same address and bump. The search fails with `DerivationExhaustedError`
/// exactly when no bump derives an address.
pub fn derive(namespace_tag: &[u8], seed_identity: &Identity) -> (r: Result<
    (Identity, u8),
    VaultError,
>)
    ensures
        derive_returns(namespace_tag@, seed_identity@, r),
{
    let program = program_id();
    match find_address(namespace_tag, seed_identity, &program) {
        Some((address, bump)) => {
            proof {
                lemma_search_finds_first(
                    PROGRAM_ID@,
                    namespace_tag@,
                    seed_identity@,
                    address@,
                    bump,
                    FIRST_BUMP,
                );
            }
            Ok((address, bump))
        },
        None => {
            proof {
                lemma_search_finds_nothing(
                    PROGRAM_ID@,
                    namespace_tag@,
                    seed_identity@,
                    FIRST_BUMP,
                );
            }
            Err(VaultError::DerivationExhaustedError)
        },
    }
}

/// Derives the address that `bump` gives for `seed_identity` in the namespace
/// `namespace_tag`, without a search. `None` when the bump gives no address.
pub fn rederive(namespace_tag: &[u8], seed_identity: &Identity, bump: u8) -> (address: Option<
    Identity,
>)
    ensures
        address_view(address) == rederived(namespace_tag@, seed_identity@, bump),
{
    let program = program_id();
    create_address(namespace_tag, seed_identity, bump, &program)
}

} // verus!
