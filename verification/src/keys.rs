//! Account addresses, held as their 32 raw bytes.
use vstd::prelude::*;

verus! {

/// A 32-byte account address (an ed25519 public key or a program-derived address).
#[derive(Clone, Copy, Debug, PartialEq, Eq, Hash)]
pub struct Pubkey(pub [u8; 32]);

impl View for Pubkey {
    type V = Seq<u8>;

    open spec fn view(&self) -> Seq<u8> {
        self.0@
    }
}

/// Compares two 32-byte strings byte by byte.
pub fn bytes32_equal(a: &[u8; 32], b: &[u8; 32]) -> (r: bool)
    ensures
        r == (*a == *b),
        r == (a@ == b@),
{
    broadcast use vstd::array::group_array_axioms;

    let mut i: usize = 0;
    while i < 32
        invariant
            0 <= i <= 32,
            a@.len() == 32,
            b@.len() == 32,
            forall|j: int| 0 <= j < i ==> a@[j] == b@[j],
        decreases 32 - i,
    {
        if a[i] != b[i] {
            assert(a@[i as int] != b@[i as int]);
            assert(a@ != b@);
            return false;
        }
        i = i + 1;
    }
    assert(a@ =~= b@);
    assert(*a =~= *b);
    true
}

impl Pubkey {
    /// Whether two addresses are the same.
    pub fn equals(&self, other: &Pubkey) -> (r: bool)
        ensures
            r == (*self == *other),
    {
        bytes32_equal(&self.0, &other.0)
    }
}

} // verus!
