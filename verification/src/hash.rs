//! Fixed-width byte values: 20-byte EVM addresses and 32-byte storage words.

use vstd::prelude::*;
use vstd::std_specs::cmp::PartialEqSpecImpl;
use crate::bytes::{be_value, bytes_equal, lemma_be_value_zeros, zeros};

verus! {

/// A 20-byte EVM account address.
#[derive(Clone, Copy, Debug)]
pub struct H160 {
    pub bytes: [u8; 20],
}

/// A 32-byte storage key, storage value or token identifier.
#[derive(Clone, Copy, Debug)]
pub struct H256 {
    pub bytes: [u8; 32],
}

impl View for H160 {
    type V = Seq<u8>;

    open spec fn view(&self) -> Seq<u8> {
        self.bytes@
    }
}

impl View for H256 {
    type V = Seq<u8>;

    open spec fn view(&self) -> Seq<u8> {
        self.bytes@
    }
}

impl PartialEq for H160 {
    fn eq(&self, other: &H160) -> (r: bool) {
        bytes_equal(self.bytes.as_slice(), other.bytes.as_slice())
    }
}

impl PartialEqSpecImpl for H160 {
    open spec fn obeys_eq_spec() -> bool {
        true
    }

    open spec fn eq_spec(&self, other: &H160) -> bool {
        self@ == other@
    }
}

impl Eq for H160 {

}

impl PartialEq for H256 {
    fn eq(&self, other: &H256) -> (r: bool) {
        bytes_equal(self.bytes.as_slice(), other.bytes.as_slice())
    }
}

impl PartialEqSpecImpl for H256 {
    open spec fn obeys_eq_spec() -> bool {
        true
    }

    open spec fn eq_spec(&self, other: &H256) -> bool {
        self@ == other@
    }
}

impl Eq for H256 {

}

impl H160 {
    /// The address made of the given bytes.
    pub fn new(bytes: [u8; 20]) -> (r: H160)
        ensures
            r@ == bytes@,
    {
        H160 { bytes }
    }

    /// The all-zero address.
    pub fn zero() -> (r: H160)
        ensures
            r@ == zeros(20),
    {
        let r = H160 { bytes: [0u8; 20] };
        r
    }
}

impl H256 {
    /// The word made of the given bytes.
    pub fn new(bytes: [u8; 32]) -> (r: H256)
        ensures
            r@ == bytes@,
    {
        H256 { bytes }
    }

    /// The all-zero word, which storage yields for a key never written.
    pub fn zero() -> (r: H256)
        ensures
            r@ == zeros(32),
            be_value(r@) == 0,
    {
        let r = H256 { bytes: [0u8; 32] };
        assert(r@ =~= zeros(32));
        proof {
            lemma_be_value_zeros(32);
        }
        r
    }

    /// Tells whether every byte of the word is zero.
    pub fn is_zero(&self) -> (r: bool)
        ensures
            r == (self@ == zeros(32)),
    {
        let z = H256::zero();
        *self == z
    }

    /// The word that holds `address` right-aligned, after twelve zero bytes.
    pub fn from_address(address: &H160) -> (r: H256)
        ensures
            r@ == zeros(12) + address@,
    {
        let mut bytes = [0u8; 32];
        let mut i: usize = 0;
        while i < 20
            invariant
                i <= 20,
                forall|j: int| 0 <= j < 12 ==> bytes@[j] == 0u8,
                forall|j: int| 0 <= j < i ==> bytes@[12 + j] == address@[j],
            decreases 20 - i,
        {
            bytes[12 + i] = address.bytes[i];
            i += 1;
        }
        let r = H256 { bytes };
        r
    }

    /// The address in the low-order twenty bytes of the word.
    pub fn to_address(&self) -> (r: H160)
        ensures
            r@ == self@.subrange(12, 32),
    {
        let mut bytes = [0u8; 20];
        let mut i: usize = 0;
        while i < 20
            invariant
                i <= 20,
                forall|j: int| 0 <= j < i ==> bytes@[j] == self@[12 + j],
            decreases 20 - i,
        {
            bytes[i] = self.bytes[12 + i];
            i += 1;
        }
        let r = H160 { bytes };
        r
    }
}

} // verus!
