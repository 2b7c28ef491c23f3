//! A few simple target functions that a search can be asked to find programs for.
use vstd::prelude::*;

verus! {

/// The number of one bits in the low `n` bits of `b`.
pub open spec fn ones(b: u8, n: nat) -> nat
    decreases n,
{
    if n == 0 {
        0
    } else {
        ones(b, (n - 1) as nat) + if (b >> ((n - 1) as u8)) & 1 == 1 { 1nat } else { 0nat }
    }
}

/// Counts the one bits of a byte.
pub fn count_ones_u8(b: u8) -> (r: u32)
    ensures
        r == ones(b, 8),
{
    let mut count: u32 = 0;
    let mut i: u8 = 0;
    while i < 8
        invariant
            i <= 8,
            count == ones(b, i as nat),
            count <= i,
        decreases 8 - i,
    {
        if (b >> i) & 1 == 1 {
            count = count + 1;
        }
        i = i + 1;
    }
    count
}

/// The identity function.
pub fn id(input: Vec<i8>) -> (r: Vec<i8>)
    ensures
        r@ == input@,
{
    input
}

/// The parity (0 or 1) of the number of one bits in the first byte.
pub fn parity(input: Vec<i8>) -> (r: Vec<i8>)
    requires
        input@.len() > 0,
    ensures
        r@ == seq![(ones(input@[0] as u8, 8) % 2) as i8],
{
    vec![(count_ones_u8(input[0] as u8) % 2) as i8]
}

/// The number of one bits in the first byte.
pub fn popcount(input: Vec<i8>) -> (r: Vec<i8>)
    requires
        input@.len() > 0,
    ensures
        r@ == seq![ones(input@[0] as u8, 8) as i8],
{
    vec![count_ones_u8(input[0] as u8) as i8]
}

} // verus!
