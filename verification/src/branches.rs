//! Module defining traits and things for scrutinizing and treating instructions which implement
//! relative jumps, optional or otherwise. This includes such instructions as:
//!
//!  - branches (these are typically conditional branches, such as the `beq` instruction on the
//!    6502, but are not necessarily conditional)
//!
//!  - relative jumps like the 6809 and PDP-11 have.
//!
//!  - skip instructions à la PDP-8 (these are the same as a branch with an implicit forward
//!    destination)
//!
//! Strop will use these traits to ensure that, for example, a subroutine does not contain an
//! instruction that jumps outside of the subroutine.
use crate::static_analysis::Fixup;
use vstd::prelude::*;

verus! {

/// Implement this trait on an instruction type if that instruction set has relative
/// jumps/branches/skips
pub trait Branch: Sized {
    /// Returns the branch's target relative to the instruction's address. An instruction set
    /// that keeps this default has no branches: there is no target.
    fn offset(&self) -> (r: Option<isize>)
        default_ensures
            r is None,
    {
        None
    }

    /// Returns a fixup if the forward branch is out of bounds. An instruction set that keeps
    /// this default has no branch to fix up.
    fn branch_fixup(&self, _permissibles: &[isize]) -> (r: Result<(), Fixup>)
        default_ensures
            r is Ok,
    {
        Ok(())
    }
}

} // verus!
