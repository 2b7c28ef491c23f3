//! Sources of random choices. Each draws from the thread-local generator of the `rand` crate, so
//! nothing is known of a result but the range it lies in.
use rand::Rng;
use vstd::prelude::*;

verus! {

/// Draws a number uniformly below `n`, by `rand::Rng::gen_range` over `0..n` on the thread-local
/// generator. The contract claims only that the result lies in that range.
#[verifier::external_body]
pub(crate) fn random_below(n: usize) -> (r: usize)
    requires
        n > 0,
    ensures
        r < n,
{
    rand::thread_rng().gen_range(0..n)
}

/// Draws a random byte with `rand::random`. Nothing is claimed of the result.
#[verifier::external_body]
pub(crate) fn random_u8() -> u8 {
    rand::random::<u8>()
}

/// Draws a random signed byte with `rand::random`. Nothing is claimed of the result.
#[verifier::external_body]
pub(crate) fn random_i8() -> i8 {
    rand::random::<i8>()
}

/// Draws a random 16-bit word with `rand::random`. Nothing is claimed of the result.
#[verifier::external_body]
pub(crate) fn random_u16() -> u16 {
    rand::random::<u16>()
}

/// Draws a random 32-bit word with `rand::random`. Nothing is claimed of the result.
#[verifier::external_body]
pub(crate) fn random_u32() -> u32 {
    rand::random::<u32>()
}

/// Draws a random signed 16-bit number with `rand::random`. Nothing is claimed of the result.
#[verifier::external_body]
pub(crate) fn random_i16() -> i16 {
    rand::random::<i16>()
}

/// Draws a random boolean with `rand::random`. Nothing is claimed of the result.
#[verifier::external_body]
pub(crate) fn random_bool() -> bool {
    rand::random::<bool>()
}

} // verus!
