//! Brute-force search: visiting every point of a search space in order.
use crate::IterationResult;
use vstd::prelude::*;

verus! {

/// Trait for things that can be bruteforce searched
pub trait BruteForceSearch {
    /// Steps to the next value in the search space, and then applies static analysis fixups.
    fn next(&mut self) -> IterationResult;
}

} // verus!
