//! A 256-bit unsigned integer held as four 64-bit words.
//!
//! The type keeps the layout of the `U256` of ethers-core (the integer that
//! primitive-types builds with the `uint` crate): four words, least
//! significant first. Conversions, narrowing and comparison are verified here.
//! Multiplication, addition and division are done by ethers-core, behind the
//! three trusted functions at the end of this file.

use vstd::prelude::*;

verus! {

/// A 256-bit unsigned integer, stored as four 64-bit words. `w0` is the least
/// significant word and `w3` the most significant one. Every combination of
/// words is a valid number, so the fields are public.
#[derive(Clone, Copy, Debug, PartialEq, Eq, Structural)]
pub struct U256 {
    pub w0: u64,
    pub w1: u64,
    pub w2: u64,
    pub w3: u64,
}

impl View for U256 {
    type V = nat;

    /// The number that the four words spell.
    open spec fn view(&self) -> nat {
        (self.w0 as nat) + (self.w1 as nat) * 0x1_0000_0000_0000_0000nat
            + (self.w2 as nat) * 0x1_0000_0000_0000_0000_0000_0000_0000_0000nat
            + (self.w3 as nat) * 0x1_0000_0000_0000_0000_0000_0000_0000_0000_0000_0000_0000_0000nat
    }
}

impl From<u32> for U256 {
    fn from(value: u32) -> (r: U256) {
        U256 { w0: value as u64, w1: 0, w2: 0, w3: 0 }
    }
}

impl vstd::std_specs::convert::FromSpecImpl<u32> for U256 {
    open spec fn obeys_from_spec() -> bool {
        true
    }

    open spec fn from_spec(value: u32) -> U256 {
        U256 { w0: value as u64, w1: 0, w2: 0, w3: 0 }
    }
}

impl From<u64> for U256 {
    fn from(value: u64) -> (r: U256) {
        U256 { w0: value, w1: 0, w2: 0, w3: 0 }
    }
}

impl vstd::std_specs::convert::FromSpecImpl<u64> for U256 {
    open spec fn obeys_from_spec() -> bool {
        true
    }

    open spec fn from_spec(value: u64) -> U256 {
        U256 { w0: value, w1: 0, w2: 0, w3: 0 }
    }
}

impl U256 {
    /// The largest number a `U256` can hold, `2^256 - 1`.
    pub open spec fn spec_max() -> nat {
        0xffff_ffff_ffff_ffff_ffff_ffff_ffff_ffff_ffff_ffff_ffff_ffff_ffff_ffff_ffff_ffffnat
    }

    /// Two values that spell the same number have the same words.
    pub proof fn lemma_view_injective(self, other: U256)
        requires
            self@ == other@,
        ensures
            self == other,
    {
        if self.w3 != other.w3 {
            assert(self.w3 < other.w3 ==> self@ < other@);
            assert(self.w3 > other.w3 ==> self@ > other@);
        } else if self.w2 != other.w2 {
            assert(self.w2 < other.w2 ==> self@ < other@);
            assert(self.w2 > other.w2 ==> self@ > other@);
        } else if self.w1 != other.w1 {
            assert(self.w1 < other.w1 ==> self@ < other@);
            assert(self.w1 > other.w1 ==> self@ > other@);
        }
    }

    /// Builds the number from its words, least significant first.
    pub fn from_words(words: [u64; 4]) -> (r: U256)
        ensures
            r == (U256 { w0: words[0], w1: words[1], w2: words[2], w3: words[3] }),
    {
        U256 { w0: words[0], w1: words[1], w2: words[2], w3: words[3] }
    }

    /// The words of the number, least significant first.
    pub fn to_words(&self) -> (r: [u64; 4])
        ensures
            r@ == seq![self.w0, self.w1, self.w2, self.w3],
    {
        [self.w0, self.w1, self.w2, self.w3]
    }

    /// The number as a `u32`, where it fits in one.
    pub fn checked_as_u32(&self) -> (r: Option<u32>)
        ensures
            r is Some <==> self@ <= u32::MAX,
            r matches Some(v) ==> v == self@,
    {
        if self.w3 == 0 && self.w2 == 0 && self.w1 == 0 && self.w0 <= 0xffff_ffff {
            Some(self.w0 as u32)
        } else {
            None
        }
    }

    /// The number as a `u32`. The number must fit in one.
    pub fn as_u32(&self) -> (r: u32)
        requires
            self@ <= u32::MAX,
        ensures
            r == self@,
    {
        self.w0 as u32
    }

    /// Whether `self` is strictly smaller than `other`.
    pub fn lt(&self, other: &U256) -> (r: bool)
        ensures
            r == (self@ < other@),
    {
        if self.w3 != other.w3 {
            self.w3 < other.w3
        } else if self.w2 != other.w2 {
            self.w2 < other.w2
        } else if self.w1 != other.w1 {
            self.w1 < other.w1
        } else {
            self.w0 < other.w0
        }
    }

    /// The larger of the two numbers.
    pub fn max(self, other: U256) -> (r: U256)
        ensures
            r@ == if self@ >= other@ { self@ } else { other@ },
            r == self || r == other,
    {
        if self.lt(&other) {
            other
        } else {
            self
        }
    }
}

/// Multiplies with `ethers_core::types::U256::checked_mul`.
///
/// Trusted, not proved: the call gives the product of the two numbers where
/// that product is below `2^256`, and `None` where it is not; and the words of
/// ethers-core's integer are the words of this one.
#[verifier::external_body]
pub(crate) fn checked_mul(a: &U256, b: &U256) -> (r: Option<U256>)
    ensures
        r is Some <==> a@ * b@ <= U256::spec_max(),
        r matches Some(product) ==> product@ == a@ * b@,
{
    let x = ethers_core::types::U256(a.to_words());
    let y = ethers_core::types::U256(b.to_words());
    x.checked_mul(y).map(|product| U256::from_words(product.0))
}

/// Adds with `ethers_core::types::U256::checked_add`.
///
/// Trusted, not proved: the call gives the sum of the two numbers where that
/// sum is below `2^256`, and `None` where it is not.
#[verifier::external_body]
pub(crate) fn checked_add(a: &U256, b: &U256) -> (r: Option<U256>)
    ensures
        r is Some <==> a@ + b@ <= U256::spec_max(),
        r matches Some(sum) ==> sum@ == a@ + b@,
{
    let x = ethers_core::types::U256(a.to_words());
    let y = ethers_core::types::U256(b.to_words());
    x.checked_add(y).map(|sum| U256::from_words(sum.0))
}

/// Divides with `ethers_core::types::U256::checked_div`.
///
/// Trusted, not proved: the call gives the quotient of `a` by `b`, rounded
/// down, where `b` is not zero, and `None` where it is.
#[verifier::external_body]
pub(crate) fn checked_div(a: &U256, b: &U256) -> (r: Option<U256>)
    ensures
        r is Some <==> b@ != 0,
        r matches Some(quotient) ==> quotient@ == a@ / b@,
{
    let x = ethers_core::types::U256(a.to_words());
    let y = ethers_core::types::U256(b.to_words());
    x.checked_div(y).map(|quotient| U256::from_words(quotient.0))
}

} // verus!
