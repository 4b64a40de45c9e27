//! Identities of principals.
//!
//! Every guard in this crate is an equality test between the identity a caller presents and
//! one that a record stores. An identity is thirty-two bytes; nothing else is known of it.

use vstd::prelude::*;

verus! {

/// Number of bytes in an identity.
pub const IDENTITY_BYTES: usize = 32;

/// The identity of a principal: a creator, a donor or the administrator.
///
/// Its model is the sequence of its bytes, and two identities are the same principal exactly
/// when these sequences are equal.
#[derive(Clone, Copy, Debug)]
pub struct Identity {
    pub bytes: [u8; 32],
}

impl View for Identity {
    type V = Seq<u8>;

    open spec fn view(&self) -> Seq<u8> {
        self.bytes@
    }
}

impl Identity {
    /// The identity made of the given bytes.
    pub fn new(bytes: [u8; 32]) -> (id: Identity)
        ensures
            id@ == bytes@,
            id.bytes == bytes,
    {
        Identity { bytes }
    }

    /// The bytes of this identity.
    pub fn to_bytes(&self) -> (bytes: [u8; 32])
        ensures
            bytes@ == self@,
            bytes == self.bytes,
    {
        self.bytes
    }

    /// Two identities with the same bytes are the same value, and the other way round.
    pub proof fn lemma_equal_iff_same_bytes(a: Identity, b: Identity)
        ensures
            (a == b) <==> (a@ == b@),
            a@.len() == IDENTITY_BYTES,
    {
        if a@ == b@ {
            assert(a.bytes =~= b.bytes);
        }
    }
}

/// Thirty-two zero bytes: what stands for an identity in a record that is not yet filled in.
pub open spec fn blank() -> Seq<u8> {
    Seq::new(IDENTITY_BYTES as nat, |i: int| 0u8)
}

impl Default for Identity {
    fn default() -> (id: Identity)
        ensures
            id@ == blank(),
    {
        let id = Identity { bytes: [0u8; 32] };
        assert(id@ =~= blank());
        id
    }
}

impl PartialEq for Identity {
    fn eq(&self, other: &Self) -> (same: bool) {
        let mut i: usize = 0;
        while i < IDENTITY_BYTES
            invariant
                i <= IDENTITY_BYTES,
                forall|j: int| 0 <= j < i ==> self.bytes[j] == other.bytes[j],
            decreases IDENTITY_BYTES - i,
        {
            if self.bytes[i] != other.bytes[i] {
                return false;
            }
            i += 1;
        }
        assert(self.bytes@ =~= other.bytes@);
        true
    }
}

impl Eq for Identity {

}

impl vstd::std_specs::cmp::PartialEqSpecImpl for Identity {
    open spec fn obeys_eq_spec() -> bool {
        true
    }

    open spec fn eq_spec(&self, other: &Self) -> bool {
        self@ == other@
    }
}

} // verus!
