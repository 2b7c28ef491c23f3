//! Static analysis: the checks that find, in a candidate program, an instruction that must be
//! changed before the program can be right, and say which one.
use vstd::prelude::*;

verus! {

/// Says that the instruction at `offset` in a sequence must be advanced (to a later encoding)
/// before the sequence can be right, and why.
#[derive(Debug, Clone, Copy, PartialEq, Eq, Structural)]
pub struct Fixup {
    /// Where in the sequence the offending instruction is
    pub offset: usize,
    /// Why the instruction must change
    pub reason: FixupReason,
}

/// The reasons for which a static analysis asks for an instruction to change.
#[derive(Debug, Clone, Copy, PartialEq, Eq, Structural)]
pub enum FixupReason {
    /// The instruction touches a datum that the sequence must leave alone
    LeaveAlone,
    /// The instruction reads a datum before anything has written it
    Uninitialized,
    /// The instruction writes a datum that nothing reads afterwards
    UnusedWrite,
    /// The sequence never writes a datum that it must write
    ExpectWrite,
    /// The sequence never reads a datum that it must read
    ExpectRead,
    /// The subroutine does not end in a return instruction
    DoesNotReturn,
}

impl Fixup {
    /// The same fixup, applying at another offset.
    pub fn set_offset(self, offset: usize) -> (r: Fixup)
        ensures
            r == (Fixup { offset, ..self }),
    {
        Fixup { offset, ..self }
    }
}

/// The outcome of a static analysis: fine, or a fixup to apply.
pub type StaticAnalysis = Result<(), Fixup>;

} // verus!
