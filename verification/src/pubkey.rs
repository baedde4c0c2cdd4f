//! Account addresses.

use vstd::prelude::*;

verus! {

/// Number of bytes in an address.
pub const PUBKEY_BYTES: usize = 32;

/// The address of an account: 32 opaque bytes.
///
/// Its view is the sequence of those bytes; two addresses are the same
/// address exactly when their views are equal.
#[derive(Clone, Copy, Debug, PartialEq, Eq)]
pub struct Pubkey {
    bytes: [u8; 32],
}

impl View for Pubkey {
    type V = Seq<u8>;

    closed spec fn view(&self) -> Seq<u8> {
        self.bytes@
    }
}

impl Pubkey {
    /// Wraps 32 bytes as an address.
    pub fn new_from_array(bytes: [u8; 32]) -> (key: Pubkey)
        ensures
            key@ == bytes@,
    {
        Pubkey { bytes }
    }

    /// The 32 bytes of the address.
    pub fn to_bytes(&self) -> (bytes: [u8; 32])
        ensures
            bytes@ == self@,
    {
        self.bytes
    }

    /// Whether `self` and `other` are the same address.
    pub fn same(&self, other: &Pubkey) -> (r: bool)
        ensures
            r == (self@ == other@),
    {
        let mut i: usize = 0;
        while i < 32
            invariant
                i <= 32,
                forall|j: int| 0 <= j < i ==> self.bytes@[j] == other.bytes@[j],
            decreases 32 - i,
        {
            if self.bytes[i] != other.bytes[i] {
                return false;
            }
            i += 1;
        }
        assert(self.bytes@ =~= other.bytes@);
        true
    }

    /// Every address has exactly 32 bytes, and addresses with the same bytes
    /// are equal.
    pub proof fn lemma_view(self, other: Pubkey)
        ensures
            self@.len() == PUBKEY_BYTES,
            self@ == other@ <==> self == other,
    {
        if self@ == other@ {
            assert(self.bytes == other.bytes);
        }
    }
}

} // verus!
