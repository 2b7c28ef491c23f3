//! This module defines the `Instruction` trait, the behaviour of an instruction that a basic
//! block (a sequence of instructions) can hold.
use vstd::prelude::*;

pub mod insn6502;

verus! {

/// The `Instruction` trait defines the behaviour of an instruction. It is
/// used by the BasicBlock type, since a basic block is a sequence of
/// instructions.
pub trait Instruction: Clone + Sized {
    /// Length of the instruction, in bytes
    fn length(&self) -> usize;

    /// Returns a random instruction.
    fn new() -> Self;

    /// Returns the bytes that encode the instruction
    fn as_bytes(&self) -> Vec<u8>;
}

} // verus!
