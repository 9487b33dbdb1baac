//! Identities of the parties and assets of a trade.

use vstd::prelude::*;

verus! {

/// A 32-byte account address.
#[derive(Clone, Copy, Debug, PartialEq, Eq)]
pub struct Identity {
    pub bytes: [u8; 32],
}

impl Identity {
    /// Whether every byte is zero. As an asset reference the all-zero address
    /// denotes the native currency.
    pub open spec fn is_native(self) -> bool {
        forall|i: int| 0 <= i < 32 ==> self.bytes[i] == 0u8
    }

    /// The address with these bytes.
    pub fn new(bytes: [u8; 32]) -> (r: Identity)
        ensures
            r.bytes == bytes,
    {
        Identity { bytes }
    }

    /// The all-zero address.
    pub open spec fn zero() -> Identity {
        Identity { bytes: vstd::array::spec_array_fill_for_copy_type::<u8, 32>(0u8) }
    }

    /// Compares two addresses byte by byte.
    pub fn same(&self, other: &Identity) -> (r: bool)
        ensures
            r == (*self == *other),
    {
        let mut i: usize = 0;
        while i < 32
            invariant
                i <= 32,
                forall|j: int| 0 <= j < i ==> self.bytes[j] == other.bytes[j],
            decreases 32 - i,
        {
            if self.bytes[i] != other.bytes[i] {
                return false;
            }
            i += 1;
        }
        assert(self.bytes =~= other.bytes);
        true
    }

    /// Tests for the all-zero address.
    pub fn is_default(&self) -> (r: bool)
        ensures
            r == self.is_native(),
    {
        let mut i: usize = 0;
        while i < 32
            invariant
                i <= 32,
                forall|j: int| 0 <= j < i ==> self.bytes[j] == 0u8,
            decreases 32 - i,
        {
            if self.bytes[i] != 0 {
                return false;
            }
            i += 1;
        }
        true
    }
}

impl Default for Identity {
    /// The all-zero address.
    fn default() -> (r: Identity)
        ensures
            r == Identity::zero(),
    {
        Identity { bytes: [0u8; 32] }
    }
}

/// The all-zero address is the only one that denotes the native currency.
pub proof fn lemma_native_is_zero(a: Identity)
    ensures
        a.is_native() <==> a == Identity::zero(),
{
    vstd::array::axiom_spec_array_fill_for_copy_type::<u8, 32>(0u8);
    if a.is_native() {
        assert(a.bytes =~= Identity::zero().bytes);
    }
}

} // verus!
