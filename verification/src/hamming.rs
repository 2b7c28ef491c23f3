//! Scalars that a search can draw at random and compare by Hamming distance.
use crate::random::{random_below, random_bool, random_u16, random_u32};
use vstd::prelude::*;

verus! {

/// The number of one bits in the low `n` bits of `x`.
pub open spec fn ones32(x: u32, n: nat) -> nat
    decreases n,
{
    if n == 0 {
        0
    } else {
        ones32(x, (n - 1) as nat) + if (x >> ((n - 1) as u32)) & 1 == 1 {
            1nat
        } else {
            0nat
        }
    }
}

/// Counts the one bits of a 32-bit word.
pub fn count_ones_u32(x: u32) -> (r: u32)
    ensures
        r == ones32(x, 32),
{
    let mut count: u32 = 0;
    let mut i: u32 = 0;
    while i < 32
        invariant
            i <= 32,
            count == ones32(x, i as nat),
            count <= i,
        decreases 32 - i,
    {
        if (x >> i) & 1 == 1 {
            count = count + 1;
        }
        i = i + 1;
    }
    count
}

/// A scalar type for parameters and return values.
pub trait Scalar: Sized {
    /// The value as a 32-bit word, as an `as` cast makes it.
    spec fn bits(self) -> u32;

    /// The value as a signed 32-bit number, as the type's conversion makes it.
    spec fn spec_as_i32(self) -> i32;

    /// A random value: half the time any value, half the time a small one.
    fn random() -> Self;

    /// The value as a signed 32-bit number.
    fn as_i32(self) -> (r: i32)
        ensures
            r == self.spec_as_i32(),
    ;

    /// The Hamming distance between the value and `other`, both taken as 32-bit words.
    fn hamming(self, other: u32) -> (r: u32)
        ensures
            r == ones32(self.bits() ^ other, 32),
    ;
}

impl Scalar for u16 {
    open spec fn bits(self) -> u32 {
        self as u32
    }

    open spec fn spec_as_i32(self) -> i32 {
        self as i32
    }

    /// Any value, or one from 0 to 100.
    fn random() -> Self {
        if random_bool() {
            random_u16()
        } else {
            random_below(101) as u16
        }
    }

    fn as_i32(self) -> (r: i32) {
        self as i32
    }

    fn hamming(self, other: u32) -> (r: u32) {
        count_ones_u32((self as u32) ^ other)
    }
}

impl Scalar for i32 {
    open spec fn bits(self) -> u32 {
        self as u32
    }

    open spec fn spec_as_i32(self) -> i32 {
        self
    }

    /// Any value, or one from -100 to 100.
    fn random() -> Self {
        if random_bool() {
            random_u32() as i32
        } else {
            random_below(201) as i32 - 100
        }
    }

    fn as_i32(self) -> (r: i32) {
        self
    }

    fn hamming(self, other: u32) -> (r: u32) {
        count_ones_u32((self as u32) ^ other)
    }
}

impl Scalar for u32 {
    open spec fn bits(self) -> u32 {
        self
    }

    open spec fn spec_as_i32(self) -> i32 {
        self as i32
    }

    /// Any value, or one from 0 to 100.
    fn random() -> Self {
        if random_bool() {
            random_u32()
        } else {
            random_below(101) as u32
        }
    }

    fn as_i32(self) -> (r: i32) {
        self as i32
    }

    fn hamming(self, other: u32) -> (r: u32) {
        count_ones_u32(self ^ other)
    }
}

/// The Hamming distance is symmetric: it counts the bits in which two words differ.
pub proof fn lemma_hamming_symmetric(a: u32, b: u32)
    ensures
        ones32(a ^ b, 32) == ones32(b ^ a, 32),
{
    assert(a ^ b == b ^ a) by (bit_vector);
}

/// A word is at Hamming distance zero from itself.
pub proof fn lemma_hamming_self(a: u32)
    ensures
        ones32(a ^ a, 32) == 0,
{
    assert(a ^ a == 0) by (bit_vector);
    lemma_ones32_zero(32);
}

proof fn lemma_ones32_zero(n: nat)
    ensures
        ones32(0u32, n) == 0,
    decreases n,
{
    if n > 0 {
        lemma_ones32_zero((n - 1) as nat);
        let k = (n - 1) as u32;
        assert((0u32 >> k) & 1 == 0) by (bit_vector);
    }
}

} // verus!
