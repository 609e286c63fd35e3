//! 256-bit unsigned integers.
//!
//! A [`U256`] carries its four 64-bit words as plain fields, so that equality,
//! ordering and the conversions to and from machine integers are verified here.
//! Sums, differences, products and quotients are computed by the `U256` of
//! `sails_rs`, which is the `U256` of `primitive-types`, whose arithmetic the
//! `uint` crate writes. The four functions that call it are the only code of
//! this module that is not verified: their contracts, stated over the
//! numeric value `@`, are taken on trust from that crate. They are kept
//! within this crate; what reaches them from outside it is verified.

use vstd::prelude::*;

verus! {

/// 2^64, the weight of the second word.
pub open spec fn word1() -> nat {
    0x1_0000_0000_0000_0000nat
}

/// 2^128, the weight of the third word.
pub open spec fn word2() -> nat {
    0x1_0000_0000_0000_0000_0000_0000_0000_0000nat
}

/// 2^192, the weight of the fourth word.
pub open spec fn word3() -> nat {
    0x1_0000_0000_0000_0000_0000_0000_0000_0000_0000_0000_0000_0000nat
}

/// 2^256: every `U256` is below it.
pub open spec fn limit() -> nat {
    0x1_0000_0000_0000_0000_0000_0000_0000_0000_0000_0000_0000_0000_0000_0000_0000_0000nat
}

/// A 256-bit unsigned integer, least significant word first.
#[derive(Clone, Copy, Debug, PartialEq, Eq, Structural, Hash)]
pub struct U256 {
    pub w0: u64,
    pub w1: u64,
    pub w2: u64,
    pub w3: u64,
}

impl View for U256 {
    type V = nat;

    /// The number that the four words spell.
    open spec fn view(&self) -> nat {
        self.w0 as nat + self.w1 as nat * word1() + self.w2 as nat * word2() + self.w3 as nat
            * word3()
    }
}

/// The words of a `U256`, most significant first: as tuples are ordered by
/// their first difference, keys are ordered as the numbers are.
pub type Key = (u64, u64, u64, u64);

impl U256 {
    /// The words, most significant first.
    pub open spec fn spec_key(self) -> Key {
        (self.w3, self.w2, self.w1, self.w0)
    }

    /// The words, most significant first.
    pub fn key(&self) -> (k: Key)
        ensures
            k == self.spec_key(),
    {
        (self.w3, self.w2, self.w1, self.w0)
    }

    /// The 256-bit integer whose value is `n`, for `n` below 2^256.
    pub open spec fn from_nat(n: nat) -> U256 {
        U256 {
            w0: (n % word1()) as u64,
            w1: ((n / word1()) % word1()) as u64,
            w2: ((n / word2()) % word1()) as u64,
            w3: ((n / word3()) % word1()) as u64,
        }
    }
}

/// `from_nat` and `@` undo each other.
pub proof fn lemma_from_nat(n: nat)
    requires
        n < limit(),
    ensures
        U256::from_nat(n)@ == n,
        forall|a: U256| a@ == n ==> a == U256::from_nat(n),
{
    let a0 = n % word1();
    let r1 = n / word1();
    let a1 = r1 % word1();
    let r2 = r1 / word1();
    let a2 = r2 % word1();
    let r3 = r2 / word1();
    assert(n == a0 + r1 * word1());
    assert(r1 == a1 + r2 * word1());
    assert(r2 == a2 + r3 * word1());
    assert(r2 == n / word2()) by {
        assert(n == a0 + a1 * word1() + r2 * word2());
        assert(0 <= a0 + a1 * word1() < word2());
    }
    assert(r3 == n / word3()) by {
        assert(n == a0 + a1 * word1() + a2 * word2() + r3 * word3());
        assert(0 <= a0 + a1 * word1() + a2 * word2() < word3());
    }
    assert(r3 < word1());
    assert(r3 % word1() == r3);
    assert(U256::from_nat(n)@ == n);
    assert forall|a: U256| a@ == n implies a == U256::from_nat(n) by {
        lemma_value_injective(a, U256::from_nat(n));
    }
}

/// Every `U256` is below 2^256.
pub proof fn lemma_below_limit(a: U256)
    ensures
        a@ < limit(),
{
}

/// Two `U256` with the same value have the same words.
pub proof fn lemma_value_injective(a: U256, b: U256)
    requires
        a@ == b@,
    ensures
        a == b,
{
    let lo_a = a.w0 as int + a.w1 as int * word1();
    let lo_b = b.w0 as int + b.w1 as int * word1();
    let hi_a = a.w2 as int + a.w3 as int * word1();
    let hi_b = b.w2 as int + b.w3 as int * word1();
    assert(a@ == lo_a + hi_a * word2());
    assert(b@ == lo_b + hi_b * word2());
    assert(0 <= lo_a < word2() && 0 <= lo_b < word2());
    if hi_a < hi_b {
        assert(hi_a * word2() + word2() <= hi_b * word2());
    } else if hi_b < hi_a {
        assert(hi_b * word2() + word2() <= hi_a * word2());
    }
    assert(hi_a == hi_b);
    assert(lo_a == lo_b);
    if a.w1 < b.w1 {
        assert(a.w1 as int * word1() + word1() <= b.w1 as int * word1());
    } else if b.w1 < a.w1 {
        assert(b.w1 as int * word1() + word1() <= a.w1 as int * word1());
    }
    if a.w3 < b.w3 {
        assert(a.w3 as int * word1() + word1() <= b.w3 as int * word1());
    } else if b.w3 < a.w3 {
        assert(b.w3 as int * word1() + word1() <= a.w3 as int * word1());
    }
}

impl U256 {
    /// Zero.
    pub fn zero() -> (r: U256)
        ensures
            r@ == 0,
    {
        U256 { w0: 0, w1: 0, w2: 0, w3: 0 }
    }

    /// One.
    pub fn one() -> (r: U256)
        ensures
            r@ == 1,
    {
        U256 { w0: 1, w1: 0, w2: 0, w3: 0 }
    }

    /// The largest value, 2^256 - 1.
    pub fn max_value() -> (r: U256)
        ensures
            r@ == limit() - 1,
    {
        U256 {
            w0: 0xffff_ffff_ffff_ffff,
            w1: 0xffff_ffff_ffff_ffff,
            w2: 0xffff_ffff_ffff_ffff,
            w3: 0xffff_ffff_ffff_ffff,
        }
    }

    /// The 256-bit integer with the value of `x`.
    pub fn from_u64(x: u64) -> (r: U256)
        ensures
            r@ == x,
    {
        U256 { w0: x, w1: 0, w2: 0, w3: 0 }
    }

    /// The 256-bit integer with the value of `x`.
    pub fn from_u128(x: u128) -> (r: U256)
        ensures
            r@ == x,
    {
        let low: u64 = (x % 0x1_0000_0000_0000_0000) as u64;
        let high: u64 = (x / 0x1_0000_0000_0000_0000) as u64;
        U256 { w0: low, w1: high, w2: 0, w3: 0 }
    }

    /// The 256-bit integer with the value of `x`.
    pub fn from_usize(x: usize) -> (r: U256)
        ensures
            r@ == x,
    {
        U256 { w0: x as u64, w1: 0, w2: 0, w3: 0 }
    }

    /// Whether the value is zero.
    pub fn is_zero(&self) -> (r: bool)
        ensures
            r == (self@ == 0),
    {
        self.w0 == 0 && self.w1 == 0 && self.w2 == 0 && self.w3 == 0
    }

    /// Whether `self` and `other` have the same value.
    pub fn same(&self, other: &U256) -> (r: bool)
        ensures
            r == (self@ == other@),
            r == (*self == *other),
    {
        proof {
            if self@ == other@ {
                lemma_value_injective(*self, *other);
            }
        }
        self.w0 == other.w0 && self.w1 == other.w1 && self.w2 == other.w2 && self.w3 == other.w3
    }

    /// Whether `self` is smaller than `other`.
    pub fn lt(&self, other: &U256) -> (r: bool)
        ensures
            r == (self@ < other@),
    {
        proof {
            lemma_order_by_words(*self, *other);
            lemma_order_by_words(*other, *self);
            if self@ == other@ {
                lemma_value_injective(*self, *other);
            }
        }
        if self.w3 != other.w3 {
            self.w3 < other.w3
        } else if self.w2 != other.w2 {
            self.w2 < other.w2
        } else if self.w1 != other.w1 {
            self.w1 < other.w1
        } else {
            self.w0 < other.w0
        }
    }

    /// Whether `self` is at most `other`.
    pub fn le(&self, other: &U256) -> (r: bool)
        ensures
            r == (self@ <= other@),
    {
        !other.lt(self)
    }

    /// Whether `self` is larger than `other`.
    pub fn gt(&self, other: &U256) -> (r: bool)
        ensures
            r == (self@ > other@),
    {
        other.lt(self)
    }

    /// The value as a `u64`, where it fits.
    pub fn to_u64(&self) -> (r: Option<u64>)
        ensures
            self@ <= u64::MAX ==> r == Some(self@ as u64),
            self@ > u64::MAX ==> r.is_none(),
    {
        if self.w1 == 0 && self.w2 == 0 && self.w3 == 0 {
            Some(self.w0)
        } else {
            None
        }
    }

    /// The value as a `u128`, where it fits.
    pub fn to_u128(&self) -> (r: Option<u128>)
        ensures
            self@ <= u128::MAX ==> r == Some(self@ as u128),
            self@ > u128::MAX ==> r.is_none(),
    {
        if self.w2 == 0 && self.w3 == 0 {
            let high: u128 = self.w1 as u128;
            let low: u128 = self.w0 as u128;
            Some(high * 0x1_0000_0000_0000_0000 + low)
        } else {
            None
        }
    }

    /// The value as a `usize`, where it fits.
    pub fn to_usize(&self) -> (r: Option<usize>)
        ensures
            self@ <= usize::MAX ==> r == Some(self@ as usize),
            self@ > usize::MAX ==> r.is_none(),
    {
        if self.w1 == 0 && self.w2 == 0 && self.w3 == 0 && self.w0 <= usize::MAX as u64 {
            Some(self.w0 as usize)
        } else {
            None
        }
    }

    /// `U256::checked_add` of `sails_rs`. Trusted: the result is the sum of
    /// the two numbers, and `None` where the sum does not fit in 256 bits.
    /// The words go into the outside type and come out of it in the same
    /// order, least significant first.
    #[verifier::external_body]
    pub(crate) fn checked_add(&self, other: &U256) -> (sum: Option<U256>)
        ensures
            self@ + other@ < limit() ==> sum.is_some() && sum.unwrap()@ == self@ + other@,
            self@ + other@ >= limit() ==> sum.is_none(),
    {
        let x = sails_rs::U256([self.w0, self.w1, self.w2, self.w3]);
        let y = sails_rs::U256([other.w0, other.w1, other.w2, other.w3]);
        match x.checked_add(y) {
            Some(s) => Some(U256 { w0: s.0[0], w1: s.0[1], w2: s.0[2], w3: s.0[3] }),
            None => None,
        }
    }

    /// `U256::checked_sub` of `sails_rs`. Trusted: the result is the first
    /// number less the second, and `None` where the second is the larger.
    #[verifier::external_body]
    pub(crate) fn checked_sub(&self, other: &U256) -> (diff: Option<U256>)
        ensures
            self@ >= other@ ==> diff.is_some() && diff.unwrap()@ == self@ - other@,
            self@ < other@ ==> diff.is_none(),
    {
        let x = sails_rs::U256([self.w0, self.w1, self.w2, self.w3]);
        let y = sails_rs::U256([other.w0, other.w1, other.w2, other.w3]);
        match x.checked_sub(y) {
            Some(s) => Some(U256 { w0: s.0[0], w1: s.0[1], w2: s.0[2], w3: s.0[3] }),
            None => None,
        }
    }

    /// `U256::checked_mul` of `sails_rs`. Trusted: the result is the product
    /// of the two numbers, and `None` where the product does not fit in 256
    /// bits.
    #[verifier::external_body]
    pub(crate) fn checked_mul(&self, other: &U256) -> (product: Option<U256>)
        ensures
            self@ * other@ < limit() ==> product.is_some() && product.unwrap()@ == self@ * other@,
            self@ * other@ >= limit() ==> product.is_none(),
    {
        let x = sails_rs::U256([self.w0, self.w1, self.w2, self.w3]);
        let y = sails_rs::U256([other.w0, other.w1, other.w2, other.w3]);
        match x.checked_mul(y) {
            Some(s) => Some(U256 { w0: s.0[0], w1: s.0[1], w2: s.0[2], w3: s.0[3] }),
            None => None,
        }
    }

    /// `U256::div_mod` of `sails_rs`. Trusted: the result is the quotient,
    /// rounded down, and the remainder of the first number by the second.
    /// The outside function panics on a zero divisor, which `requires`
    /// leaves out.
    #[verifier::external_body]
    pub(crate) fn div_mod(&self, other: &U256) -> (qr: (U256, U256))
        requires
            other@ > 0,
        ensures
            qr.0@ == self@ / other@,
            qr.1@ == self@ % other@,
    {
        let x = sails_rs::U256([self.w0, self.w1, self.w2, self.w3]);
        let y = sails_rs::U256([other.w0, other.w1, other.w2, other.w3]);
        let (q, r) = x.div_mod(y);
        (
            U256 { w0: q.0[0], w1: q.0[1], w2: q.0[2], w3: q.0[3] },
            U256 { w0: r.0[0], w1: r.0[1], w2: r.0[2], w3: r.0[3] },
        )
    }
}

/// The order of two values is the order of their words, read from the most
/// significant down.
pub proof fn lemma_order_by_words(a: U256, b: U256)
    ensures
        a.w3 < b.w3 ==> a@ < b@,
        a.w3 == b.w3 && a.w2 < b.w2 ==> a@ < b@,
        a.w3 == b.w3 && a.w2 == b.w2 && a.w1 < b.w1 ==> a@ < b@,
        a.w3 == b.w3 && a.w2 == b.w2 && a.w1 == b.w1 && a.w0 < b.w0 ==> a@ < b@,
{
    let lo_a = a.w0 as int + a.w1 as int * word1();
    let lo_b = b.w0 as int + b.w1 as int * word1();
    let hi_a = a.w2 as int + a.w3 as int * word1();
    let hi_b = b.w2 as int + b.w3 as int * word1();
    assert(a@ == lo_a + hi_a * word2());
    assert(b@ == lo_b + hi_b * word2());
    assert(0 <= lo_a < word2() && 0 <= lo_b < word2());
    if a.w3 < b.w3 {
        assert(a.w3 as int * word1() + word1() <= b.w3 as int * word1());
        assert(hi_a < hi_b);
        assert(hi_a * word2() + word2() <= hi_b * word2());
    } else if a.w3 == b.w3 && a.w2 < b.w2 {
        assert(hi_a < hi_b);
        assert(hi_a * word2() + word2() <= hi_b * word2());
    } else if a.w3 == b.w3 && a.w2 == b.w2 && a.w1 < b.w1 {
        assert(a.w1 as int * word1() + word1() <= b.w1 as int * word1());
    }
}

} // verus!
