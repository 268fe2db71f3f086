//! 256-bit unsigned integers, as the EVM counts gas, prices and values.

use vstd::prelude::*;
use crate::bytes::{be_bytes, be_value, lemma_be_bytes_of_value};
use crate::hash::H256;

verus! {

/// Two to the power 64.
pub open spec fn pow2_64() -> nat {
    0x1_0000_0000_0000_0000nat
}

/// Two to the power 128.
pub open spec fn pow2_128() -> nat {
    0x1_0000_0000_0000_0000_0000_0000_0000_0000nat
}

/// Two to the power 192.
pub open spec fn pow2_192() -> nat {
    0x1_0000_0000_0000_0000_0000_0000_0000_0000_0000_0000_0000_0000nat
}

/// Two to the power 256: the first number that no `U256` holds.
pub open spec fn pow2_256() -> nat {
    0x1_0000_0000_0000_0000_0000_0000_0000_0000_0000_0000_0000_0000_0000_0000_0000_0000nat
}

/// A 256-bit unsigned integer held as four 64-bit limbs, least significant
/// first, which is how `sp_core::U256` holds its own: the limbs pass between
/// the two as they are.
#[derive(Clone, Copy, Debug, PartialEq, Eq, Structural)]
pub struct U256 {
    pub l0: u64,
    pub l1: u64,
    pub l2: u64,
    pub l3: u64,
}

impl View for U256 {
    type V = nat;

    open spec fn view(&self) -> nat {
        self.l0 as nat + self.l1 as nat * pow2_64() + self.l2 as nat * pow2_128() + self.l3 as nat
            * pow2_192()
    }
}

/// `sp_core::U256::checked_add`: the sum where it fits in 256 bits, and
/// nothing where it does not.
#[verifier::external_body]
fn outside_checked_add(a: U256, b: U256) -> (r: Option<U256>)
    ensures
        a@ + b@ < pow2_256() ==> r.is_some() && r.unwrap()@ == a@ + b@,
        a@ + b@ >= pow2_256() ==> r.is_none(),
{
    let x = sp_core::U256([a.l0, a.l1, a.l2, a.l3]);
    let y = sp_core::U256([b.l0, b.l1, b.l2, b.l3]);
    match x.checked_add(y) {
        Some(z) => Some(U256 { l0: z.0[0], l1: z.0[1], l2: z.0[2], l3: z.0[3] }),
        None => None,
    }
}

/// `sp_core::U256::checked_sub`: the difference where it is not negative,
/// and nothing where it is.
#[verifier::external_body]
fn outside_checked_sub(a: U256, b: U256) -> (r: Option<U256>)
    ensures
        a@ >= b@ ==> r.is_some() && r.unwrap()@ == a@ - b@,
        a@ < b@ ==> r.is_none(),
{
    let x = sp_core::U256([a.l0, a.l1, a.l2, a.l3]);
    let y = sp_core::U256([b.l0, b.l1, b.l2, b.l3]);
    match x.checked_sub(y) {
        Some(z) => Some(U256 { l0: z.0[0], l1: z.0[1], l2: z.0[2], l3: z.0[3] }),
        None => None,
    }
}

/// `sp_core::U256::checked_mul`: the product where it fits in 256 bits, and
/// nothing where it does not.
#[verifier::external_body]
fn outside_checked_mul(a: U256, b: U256) -> (r: Option<U256>)
    ensures
        a@ * b@ < pow2_256() ==> r.is_some() && r.unwrap()@ == a@ * b@,
        a@ * b@ >= pow2_256() ==> r.is_none(),
{
    let x = sp_core::U256([a.l0, a.l1, a.l2, a.l3]);
    let y = sp_core::U256([b.l0, b.l1, b.l2, b.l3]);
    match x.checked_mul(y) {
        Some(z) => Some(U256 { l0: z.0[0], l1: z.0[1], l2: z.0[2], l3: z.0[3] }),
        None => None,
    }
}

/// `sp_core::U256::from_big_endian` on 32 bytes: the number that the bytes
/// spell, most significant byte first.
#[verifier::external_body]
fn outside_from_big_endian(word: &H256) -> (r: U256)
    ensures
        r@ == be_value(word@),
{
    let z = sp_core::U256::from_big_endian(&word.bytes);
    U256 { l0: z.0[0], l1: z.0[1], l2: z.0[2], l3: z.0[3] }
}

/// `sp_core::U256::to_big_endian` into 32 bytes: the bytes that spell the
/// number, most significant byte first.
#[verifier::external_body]
fn outside_to_big_endian(x: U256) -> (r: H256)
    ensures
        be_value(r@) == x@,
{
    let mut bytes = [0u8; 32];
    sp_core::U256([x.l0, x.l1, x.l2, x.l3]).to_big_endian(&mut bytes);
    H256 { bytes }
}

impl U256 {
    /// The number zero.
    pub fn zero() -> (r: U256)
        ensures
            r@ == 0,
    {
        U256 { l0: 0, l1: 0, l2: 0, l3: 0 }
    }

    /// The number one.
    pub fn one() -> (r: U256)
        ensures
            r@ == 1,
    {
        U256 { l0: 1, l1: 0, l2: 0, l3: 0 }
    }

    /// The number `value`.
    pub fn from_u64(value: u64) -> (r: U256)
        ensures
            r@ == value,
    {
        U256 { l0: value, l1: 0, l2: 0, l3: 0 }
    }

    /// The number `value`.
    pub fn from_u128(value: u128) -> (r: U256)
        ensures
            r@ == value,
    {
        let low: u64 = (value & 0xffff_ffff_ffff_ffff) as u64;
        let high: u64 = (value >> 64) as u64;
        assert(value == (value & 0xffff_ffff_ffff_ffff) + (value >> 64) * 0x1_0000_0000_0000_0000)
            by (bit_vector);
        assert((value & 0xffff_ffff_ffff_ffff) <= 0xffff_ffff_ffff_ffff) by (bit_vector);
        assert((value >> 64) <= 0xffff_ffff_ffff_ffff) by (bit_vector);
        U256 { l0: low, l1: high, l2: 0, l3: 0 }
    }

    /// The number as a `u128`, where it fits in one.
    pub fn to_u128(&self) -> (r: Option<u128>)
        ensures
            self@ <= u128::MAX ==> r == Some(self@ as u128),
            self@ > u128::MAX ==> r.is_none(),
    {
        if self.l2 != 0 || self.l3 != 0 {
            None
        } else {
            let low: u128 = self.l0 as u128;
            let high: u128 = self.l1 as u128;
            assert(high * 0x1_0000_0000_0000_0000 == high << 64) by (bit_vector)
                requires
                    high <= 0xffff_ffff_ffff_ffff,
            ;
            assert((high << 64) + low <= 0xffff_ffff_ffff_ffff_ffff_ffff_ffff_ffff) by (bit_vector)
                requires
                    high <= 0xffff_ffff_ffff_ffff,
                    low <= 0xffff_ffff_ffff_ffff,
            ;
            Some((high << 64) + low)
        }
    }

    /// The sum of the two numbers, or nothing where it needs more than 256
    /// bits.
    pub fn checked_add(self, other: U256) -> (r: Option<U256>)
        ensures
            self@ + other@ < pow2_256() ==> r.is_some() && r.unwrap()@ == self@ + other@,
            self@ + other@ >= pow2_256() ==> r.is_none(),
    {
        outside_checked_add(self, other)
    }

    /// The difference of the two numbers, or nothing where `other` is the
    /// greater.
    pub fn checked_sub(self, other: U256) -> (r: Option<U256>)
        ensures
            self@ >= other@ ==> r.is_some() && r.unwrap()@ == self@ - other@,
            self@ < other@ ==> r.is_none(),
    {
        outside_checked_sub(self, other)
    }

    /// The product of the two numbers, or nothing where it needs more than
    /// 256 bits.
    pub fn checked_mul(self, other: U256) -> (r: Option<U256>)
        ensures
            self@ * other@ < pow2_256() ==> r.is_some() && r.unwrap()@ == self@ * other@,
            self@ * other@ >= pow2_256() ==> r.is_none(),
    {
        outside_checked_mul(self, other)
    }

    /// The number that the 32 bytes of `word` spell, most significant byte
    /// first.
    pub fn from_big_endian(word: &H256) -> (r: U256)
        ensures
            r@ == be_value(word@),
    {
        outside_from_big_endian(word)
    }

    /// The 32 bytes that spell the number, most significant byte first.
    pub fn to_big_endian(&self) -> (r: H256)
        ensures
            r@ == be_bytes(self@, 32),
            be_value(r@) == self@,
    {
        let r = outside_to_big_endian(*self);
        proof {
            lemma_be_bytes_of_value(r@);
        }
        r
    }
}

} // verus!
