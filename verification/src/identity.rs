//! Account identities: fixed-size public identifiers compared byte by byte.

use vstd::prelude::*;

verus! {

/// Number of bytes in an identity.
pub const IDENTITY_BYTES: usize = 32;

/// The public identifier of an account: a user, a vault or a state record.
///
/// An identity is an uninterpreted run of `IDENTITY_BYTES` bytes. Its view is
/// that run as a sequence, and two identities are the same account exactly
/// when their views are equal.
#[derive(Clone, Copy, Debug)]
pub struct Identity {
    bytes: [u8; IDENTITY_BYTES],
}

impl View for Identity {
    type V = Seq<u8>;

    closed spec fn view(&self) -> Seq<u8> {
        self.bytes@
    }
}

impl Identity {
    /// Wraps the bytes of an address.
    pub fn new(bytes: [u8; IDENTITY_BYTES]) -> (id: Identity)
        ensures
            id@ == bytes@,
    {
        Identity { bytes }
    }

    /// The bytes of the address.
    pub fn to_bytes(&self) -> (bytes: [u8; IDENTITY_BYTES])
        ensures
            bytes@ == self@,
    {
        self.bytes
    }

    /// The bytes of the address, borrowed, in the form that seeds take.
    pub fn as_slice(&self) -> (bytes: &[u8])
        ensures
            bytes@ == self@,
    {
        self.bytes.as_slice()
    }

    /// Identities with the same bytes are the same identity.
    pub proof fn lemma_view_decides(a: Identity, b: Identity)
        ensures
            (a@ == b@) == (a == b),
    {
        if a@ == b@ {
            assert(a.bytes =~= b.bytes);
        }
    }
}

impl PartialEq for Identity {
    /// Equality of identities is equality of their bytes.
    fn eq(&self, other: &Identity) -> (same: bool) {
        let mut i: usize = 0;
        while i < IDENTITY_BYTES
            invariant
                i <= IDENTITY_BYTES,
                forall|j: int| 0 <= j < i ==> self.bytes@[j] == other.bytes@[j],
            decreases IDENTITY_BYTES - i,
        {
            if self.bytes[i] != other.bytes[i] {
                return false;
            }
            i = i + 1;
        }
        assert(self.bytes@ =~= other.bytes@);
        true
    }
}

impl vstd::std_specs::cmp::PartialEqSpecImpl for Identity {
    open spec fn obeys_eq_spec() -> bool {
        true
    }

    open spec fn eq_spec(&self, other: &Identity) -> bool {
        self@ == other@
    }
}

impl Eq for Identity {

}

} // verus!
