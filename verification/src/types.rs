//! Primitive values shared by every component: digests and the validity window width.

use vstd::prelude::*;

verus! {

/// Width of the validity window, in blocks.
pub const BLOCKLIMIT: u64 = 100;

/// A 32-byte digest: a transaction hash or a block hash.
#[derive(Clone, Copy, Debug, Eq)]
pub struct H256(pub [u8; 32]);

impl PartialEq for H256 {
    fn eq(&self, other: &Self) -> (r: bool) {
        let mut i: usize = 0;
        while i < 32
            invariant
                i <= 32,
                forall|j: int| 0 <= j < i ==> self.0[j] == other.0[j],
            decreases 32 - i,
        {
            if self.0[i] != other.0[i] {
                return false;
            }
            i = i + 1;
        }
        assert(self.0 =~= other.0);
        true
    }
}

impl vstd::std_specs::cmp::PartialEqSpecImpl for H256 {
    open spec fn obeys_eq_spec() -> bool {
        true
    }

    open spec fn eq_spec(&self, other: &Self) -> bool {
        *self == *other
    }
}

impl H256 {
    /// The digest whose bytes are all zero.
    pub open spec fn spec_zero() -> H256 {
        H256(vstd::array::spec_array_fill_for_copy_type(0u8))
    }

    /// The digest whose bytes are all zero.
    pub fn zero() -> (r: H256)
        ensures
            r == H256::spec_zero(),
    {
        H256([0u8; 32])
    }
}

impl DeepView for H256 {
    type V = H256;

    open spec fn deep_view(&self) -> H256 {
        *self
    }
}

} // verus!
