//! Fixed-width values that the rest of the crate carries around.

use vstd::prelude::*;

verus! {

/// An owned run of raw bytes.
pub type Bytes = Vec<u8>;

/// Decides whether two byte slices hold the same bytes in the same order.
pub(crate) fn bytes_eq(a: &[u8], b: &[u8]) -> (same: bool)
    ensures
        same == (a@ == b@),
{
    if a.len() != b.len() {
        return false;
    }
    let mut i: usize = 0;
    while i < a.len()
        invariant
            a@.len() == b@.len(),
            i <= a@.len(),
            forall|j: int| 0 <= j < i ==> a@[j] == b@[j],
        decreases a@.len() - i,
    {
        if a[i] != b[i] {
            return false;
        }
        i += 1;
    }
    assert(a@ =~= b@);
    true
}

/// A 160-bit value, most often the address of an account.
#[derive(Clone, Copy, Debug, Hash)]
pub struct H160(pub [u8; 20]);

/// The address of an account.
pub type Address = H160;

impl View for H160 {
    type V = Seq<u8>;

    open spec fn view(&self) -> Seq<u8> {
        self.0@
    }
}

impl H160 {
    /// Two values with the same bytes are the same value.
    pub proof fn lemma_view_is_injective(a: H160, b: H160)
        ensures
            (a@ == b@) <==> (a == b),
    {
        if a@ == b@ {
            assert(forall|i: int| 0 <= i < 20 ==> a.0[i] == a@[i] && b.0[i] == b@[i]);
            assert(a.0 =~= b.0);
        }
    }
}

impl PartialEq for H160 {
    fn eq(&self, other: &Self) -> (same: bool) {
        let same = bytes_eq(self.0.as_slice(), other.0.as_slice());
        proof {
            H160::lemma_view_is_injective(*self, *other);
        }
        same
    }
}

impl vstd::std_specs::cmp::PartialEqSpecImpl for H160 {
    open spec fn obeys_eq_spec() -> bool {
        true
    }

    open spec fn eq_spec(&self, other: &Self) -> bool {
        *self == *other
    }
}

impl Eq for H160 {

}

/// A 256-bit digest: the content address of a serialized trie node.
#[derive(Clone, Copy, Debug, Hash)]
pub struct H256(pub [u8; 32]);

impl View for H256 {
    type V = Seq<u8>;

    open spec fn view(&self) -> Seq<u8> {
        self.0@
    }
}

impl H256 {
    /// Two digests with the same bytes are the same digest.
    pub proof fn lemma_view_is_injective(a: H256, b: H256)
        ensures
            (a@ == b@) <==> (a == b),
    {
        if a@ == b@ {
            assert(forall|i: int| 0 <= i < 32 ==> a.0[i] == a@[i] && b.0[i] == b@[i]);
            assert(a.0 =~= b.0);
        }
    }
}

impl PartialEq for H256 {
    fn eq(&self, other: &Self) -> (same: bool) {
        let same = bytes_eq(self.0.as_slice(), other.0.as_slice());
        proof {
            H256::lemma_view_is_injective(*self, *other);
        }
        same
    }
}

impl vstd::std_specs::cmp::PartialEqSpecImpl for H256 {
    open spec fn obeys_eq_spec() -> bool {
        true
    }

    open spec fn eq_spec(&self, other: &Self) -> bool {
        *self == *other
    }
}

impl Eq for H256 {

}

impl Default for H256 {
    /// The digest whose 32 bytes are all zero.
    fn default() -> (zero: H256)
        ensures
            zero@ == Seq::new(32, |i: int| 0u8),
    {
        let zero = H256([0u8; 32]);
        assert(zero@ =~= Seq::new(32, |i: int| 0u8));
        zero
    }
}

/// A 256-bit unsigned number, held as four 64-bit limbs, the least
/// significant first.
#[derive(Clone, Copy, Debug, Hash)]
pub struct U256(pub [u64; 4]);

impl PartialEq for U256 {
    fn eq(&self, other: &Self) -> (same: bool) {
        let same = self.0[0] == other.0[0] && self.0[1] == other.0[1] && self.0[2] == other.0[2]
            && self.0[3] == other.0[3];
        proof {
            if same {
                assert(self.0 =~= other.0);
            }
        }
        same
    }
}

impl vstd::std_specs::cmp::PartialEqSpecImpl for U256 {
    open spec fn obeys_eq_spec() -> bool {
        true
    }

    open spec fn eq_spec(&self, other: &Self) -> bool {
        *self == *other
    }
}

impl Eq for U256 {

}

} // verus!
