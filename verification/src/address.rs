//! Account identifiers: fixed-width, 20 bytes.

use vstd::prelude::*;

verus! {

/// A 20-byte account identifier.
#[derive(Clone, Copy, Debug, PartialEq, Eq, Hash)]
pub struct Address {
    pub bytes: [u8; 20],
}

impl View for Address {
    type V = Seq<u8>;

    open spec fn view(&self) -> Seq<u8> {
        self.bytes@
    }
}

/// The view of the null identity: twenty zero bytes.
pub open spec fn null_bytes() -> Seq<u8> {
    Seq::new(20, |i: int| 0u8)
}

impl Address {
    /// The identifier made of `bytes`.
    pub fn new(bytes: [u8; 20]) -> (r: Address)
        ensures
            r.bytes == bytes,
    {
        Address { bytes }
    }

    /// The null identity.
    pub fn zero() -> (r: Address)
        ensures
            r@ == null_bytes(),
    {
        let r = Address { bytes: [0u8; 20] };
        assert(r@ =~= null_bytes());
        r
    }

    /// Whether this is the null identity.
    pub fn is_zero(&self) -> (r: bool)
        ensures
            r == (self@ == null_bytes()),
    {
        let mut i: usize = 0;
        while i < 20
            invariant
                i <= 20,
                forall|j: int| 0 <= j < i ==> self.bytes[j] == 0,
            decreases 20 - i,
        {
            if self.bytes[i] != 0 {
                assert(self@[i as int] != null_bytes()[i as int]);
                return false;
            }
            i += 1;
        }
        assert(self@ =~= null_bytes());
        true
    }

    /// Whether the two identifiers are the same.
    pub fn equals(&self, other: &Address) -> (r: bool)
        ensures
            r == (*self == *other),
    {
        let mut i: usize = 0;
        while i < 20
            invariant
                i <= 20,
                forall|j: int| 0 <= j < i ==> self.bytes[j] == other.bytes[j],
            decreases 20 - i,
        {
            if self.bytes[i] != other.bytes[i] {
                return false;
            }
            i += 1;
        }
        assert(self.bytes =~= other.bytes);
        true
    }
}

} // verus!
