//! 256-bit unsigned integers held as four 64-bit limbs, least significant
//! first. The arithmetic itself is done by `alloy_primitives::U256`.

use vstd::prelude::*;

verus! {

/// 2^256, one more than the largest value a `U256` holds.
pub open spec fn modulus() -> nat {
    0x1_0000_0000_0000_0000_0000_0000_0000_0000_0000_0000_0000_0000_0000_0000_0000_0000nat
}

/// An unsigned 256-bit integer. `l0` is the least significant limb.
#[derive(Clone, Copy, Debug, PartialEq, Eq, Structural)]
pub struct U256 {
    pub l0: u64,
    pub l1: u64,
    pub l2: u64,
    pub l3: u64,
}

impl View for U256 {
    type V = nat;

    /// The limbs weighted by 1, 2^64, 2^128 and 2^192.
    open spec fn view(&self) -> nat {
        (self.l0 as nat) + (self.l1 as nat) * 0x1_0000_0000_0000_0000nat + (self.l2 as nat)
            * 0x1_0000_0000_0000_0000_0000_0000_0000_0000nat + (self.l3 as nat)
            * 0x1_0000_0000_0000_0000_0000_0000_0000_0000_0000_0000_0000_0000nat
    }
}

/// If two numbers written as a digit below 2^64 plus 2^64 times a rest are
/// equal, the digits are equal and the rests are equal.
proof fn lemma_digit_split(d1: int, r1: int, d2: int, r2: int)
    requires
        0 <= d1 < 0x1_0000_0000_0000_0000,
        0 <= d2 < 0x1_0000_0000_0000_0000,
        d1 + r1 * 0x1_0000_0000_0000_0000 == d2 + r2 * 0x1_0000_0000_0000_0000,
    ensures
        d1 == d2,
        r1 == r2,
{
    if r1 < r2 {
        assert(r1 + 1 <= r2);
    } else if r2 < r1 {
        assert(r2 + 1 <= r1);
    }
}

/// Every value lies below 2^256.
pub proof fn lemma_view_bounded(a: U256)
    ensures
        a@ < modulus(),
{
}

/// Two integers with the same value have the same limbs.
pub proof fn lemma_view_injective(a: U256, b: U256)
    requires
        a@ == b@,
    ensures
        a == b,
{
    let ra2 = a.l2 + a.l3 * 0x1_0000_0000_0000_0000;
    let rb2 = b.l2 + b.l3 * 0x1_0000_0000_0000_0000;
    let ra1 = a.l1 + ra2 * 0x1_0000_0000_0000_0000;
    let rb1 = b.l1 + rb2 * 0x1_0000_0000_0000_0000;
    lemma_digit_split(a.l0 as int, ra1, b.l0 as int, rb1);
    lemma_digit_split(a.l1 as int, ra2, b.l1 as int, rb2);
    lemma_digit_split(a.l2 as int, a.l3 as int, b.l2 as int, b.l3 as int);
}

/// Calls `checked_add` of `alloy_primitives::U256`, which is ruint's
/// `Uint<256, 4>`. Not proved here: that it returns the sum, and `None`
/// exactly when the sum does not fit in 256 bits. The operands go in
/// through `from_limbs` and the result comes back through `into_limbs`,
/// both least significant limb first.
#[verifier::external_body]
fn wide_checked_add(a: U256, b: U256) -> (r: Option<U256>)
    ensures
        a@ + b@ < modulus() ==> r is Some && r->0@ == a@ + b@,
        a@ + b@ >= modulus() ==> r is None,
{
    let x = alloy_primitives::U256::from_limbs([a.l0, a.l1, a.l2, a.l3]);
    let y = alloy_primitives::U256::from_limbs([b.l0, b.l1, b.l2, b.l3]);
    x.checked_add(y).map(|z| z.into_limbs()).map(|w| U256 { l0: w[0], l1: w[1], l2: w[2], l3: w[3] })
}

/// Calls `checked_sub` of `alloy_primitives::U256`. Not proved here: that
/// it returns the difference, and `None` exactly when the subtrahend is
/// the larger.
#[verifier::external_body]
fn wide_checked_sub(a: U256, b: U256) -> (r: Option<U256>)
    ensures
        a@ >= b@ ==> r is Some && r->0@ == a@ - b@,
        a@ < b@ ==> r is None,
{
    let x = alloy_primitives::U256::from_limbs([a.l0, a.l1, a.l2, a.l3]);
    let y = alloy_primitives::U256::from_limbs([b.l0, b.l1, b.l2, b.l3]);
    x.checked_sub(y).map(|z| z.into_limbs()).map(|w| U256 { l0: w[0], l1: w[1], l2: w[2], l3: w[3] })
}

/// Calls `checked_mul` of `alloy_primitives::U256`. Not proved here: that
/// it returns the product, and `None` exactly when the product does not
/// fit in 256 bits.
#[verifier::external_body]
fn wide_checked_mul(a: U256, b: U256) -> (r: Option<U256>)
    ensures
        a@ * b@ < modulus() ==> r is Some && r->0@ == a@ * b@,
        a@ * b@ >= modulus() ==> r is None,
{
    let x = alloy_primitives::U256::from_limbs([a.l0, a.l1, a.l2, a.l3]);
    let y = alloy_primitives::U256::from_limbs([b.l0, b.l1, b.l2, b.l3]);
    x.checked_mul(y).map(|z| z.into_limbs()).map(|w| U256 { l0: w[0], l1: w[1], l2: w[2], l3: w[3] })
}

/// Calls `checked_div` of `alloy_primitives::U256`. Not proved here: that
/// it returns the quotient rounded down, and `None` exactly when the
/// divisor is zero.
#[verifier::external_body]
fn wide_checked_div(a: U256, b: U256) -> (r: Option<U256>)
    ensures
        b@ != 0 ==> r is Some && r->0@ == a@ / b@,
        b@ == 0 ==> r is None,
{
    let x = alloy_primitives::U256::from_limbs([a.l0, a.l1, a.l2, a.l3]);
    let y = alloy_primitives::U256::from_limbs([b.l0, b.l1, b.l2, b.l3]);
    x.checked_div(y).map(|z| z.into_limbs()).map(|w| U256 { l0: w[0], l1: w[1], l2: w[2], l3: w[3] })
}

impl U256 {
    /// The integer whose limbs, least significant first, are `limbs`.
    pub fn from_limbs(limbs: [u64; 4]) -> (r: U256)
        ensures
            r == (U256 { l0: limbs[0], l1: limbs[1], l2: limbs[2], l3: limbs[3] }),
    {
        U256 { l0: limbs[0], l1: limbs[1], l2: limbs[2], l3: limbs[3] }
    }

    /// The limbs, least significant first.
    pub fn into_limbs(self) -> (r: [u64; 4])
        ensures
            r[0] == self.l0,
            r[1] == self.l1,
            r[2] == self.l2,
            r[3] == self.l3,
    {
        [self.l0, self.l1, self.l2, self.l3]
    }

    /// Zero.
    pub fn zero() -> (r: U256)
        ensures
            r@ == 0,
    {
        U256 { l0: 0, l1: 0, l2: 0, l3: 0 }
    }

    /// 2^256 - 1, the largest value.
    pub fn max_value() -> (r: U256)
        ensures
            r@ == modulus() - 1,
    {
        U256 {
            l0: 0xffff_ffff_ffff_ffff,
            l1: 0xffff_ffff_ffff_ffff,
            l2: 0xffff_ffff_ffff_ffff,
            l3: 0xffff_ffff_ffff_ffff,
        }
    }

    /// The integer `value`.
    pub fn from_u64(value: u64) -> (r: U256)
        ensures
            r@ == value,
    {
        U256 { l0: value, l1: 0, l2: 0, l3: 0 }
    }

    /// Whether the value is zero.
    pub fn is_zero(self) -> (r: bool)
        ensures
            r == (self@ == 0),
    {
        self.l0 == 0 && self.l1 == 0 && self.l2 == 0 && self.l3 == 0
    }

    /// Whether the two values are equal.
    pub fn equals(self, other: U256) -> (r: bool)
        ensures
            r == (self@ == other@),
            r == (self == other),
    {
        proof {
            if self@ == other@ {
                lemma_view_injective(self, other);
            }
        }
        self == other
    }

    /// Whether `self` is strictly smaller than `other`.
    pub fn lt(self, other: U256) -> (r: bool)
        ensures
            r == (self@ < other@),
    {
        if self.l3 != other.l3 {
            self.l3 < other.l3
        } else if self.l2 != other.l2 {
            self.l2 < other.l2
        } else if self.l1 != other.l1 {
            self.l1 < other.l1
        } else {
            self.l0 < other.l0
        }
    }

    /// Whether `self` is at least `other`.
    pub fn ge(self, other: U256) -> (r: bool)
        ensures
            r == (self@ >= other@),
    {
        !self.lt(other)
    }

    /// `self + rhs`, or `None` when the sum does not fit in 256 bits.
    pub fn checked_add(self, rhs: U256) -> (r: Option<U256>)
        ensures
            self@ + rhs@ < modulus() ==> r is Some && r->0@ == self@ + rhs@,
            self@ + rhs@ >= modulus() ==> r is None,
    {
        wide_checked_add(self, rhs)
    }

    /// `self - rhs`, or `None` when `rhs` is the larger.
    pub fn checked_sub(self, rhs: U256) -> (r: Option<U256>)
        ensures
            self@ >= rhs@ ==> r is Some && r->0@ == self@ - rhs@,
            self@ < rhs@ ==> r is None,
    {
        wide_checked_sub(self, rhs)
    }

    /// `self * rhs`, or `None` when the product does not fit in 256 bits.
    pub fn checked_mul(self, rhs: U256) -> (r: Option<U256>)
        ensures
            self@ * rhs@ < modulus() ==> r is Some && r->0@ == self@ * rhs@,
            self@ * rhs@ >= modulus() ==> r is None,
    {
        wide_checked_mul(self, rhs)
    }

    /// `self / rhs` rounded down, or `None` when `rhs` is zero.
    pub fn checked_div(self, rhs: U256) -> (r: Option<U256>)
        ensures
            rhs@ != 0 ==> r is Some && r->0@ == self@ / rhs@,
            rhs@ == 0 ==> r is None,
    {
        wide_checked_div(self, rhs)
    }

    /// `self - rhs`, or zero when `rhs` is the larger.
    pub fn saturating_sub(self, rhs: U256) -> (r: U256)
        ensures
            r@ == (if self@ >= rhs@ { self@ - rhs@ } else { 0 }),
    {
        match wide_checked_sub(self, rhs) {
            Some(d) => d,
            None => U256::zero(),
        }
    }
}

} // verus!
