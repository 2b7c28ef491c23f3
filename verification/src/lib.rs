//! Strop, the stochastic optimizer
//! -----------------------------------------------
//! This library generates assembly language programs that compute a given function.
//!
//! Strop provides mechanisms for generating programs, and mutating them in ways that
//! stochastically approach the desired output.
//!
//! Strop also provides a bruteforce search.
//!
//! Another way to describe strop, is that it generates pretty good assembly programs, either
//! randomly or by bruteforce search.
//!
//! So far, strop has had a focus on supporting architectures that are not well supported by
//! mainstream compilers such as LLVM. These have included architectures common in low-end
//! embedded, and hobbyist retrocomputing.
use vstd::prelude::*;

pub mod branches;
pub mod bruteforce;
pub mod data;
pub mod dataflow;
pub mod disassemble;
pub mod functions;
pub mod generate;
pub mod hamming;
pub mod i80;
pub mod instruction;
pub mod m6502;
pub mod m68000;
pub mod m6809;
pub mod machine;
mod random;
pub mod static_analysis;
pub mod text;

pub use branches::Branch;
pub use disassemble::{Disassemble, Disassembly};
pub use static_analysis::Fixup;
pub use static_analysis::FixupReason;

verus! {

/// Enum representing possible errors when stepping
#[derive(Debug, PartialEq, Eq, Structural, Clone, Copy)]
pub enum StepError {
    /// No more possible values.
    End,
}

/// Return type for in-place iteration
pub type IterationResult = Result<(), StepError>;

/// Enum representing possible errors when running (a subroutine, a function, an interrupt handler,
/// etc...)
#[derive(Debug, PartialEq, Eq, Structural, Clone, Copy)]
pub enum RunError {
    /// The program ran amok (it jumped to some location outside of itself, or caused a runtime
    /// exception, or undefined behavior, or ...)
    RanAmok,
    /// The function is not defined for the given parameters
    NotDefined,
    /// The function takes too many arguments for the calling convention to handle
    TooManyArguments,
    /// The function has too many return values for the calling convention to handle
    TooManyReturnValues,
    /// The function signature contains types not supported by the calling convention
    UnsupportedType,
}

/// Return type for in-place iteration
pub type RunResult<T> = Result<T, RunError>;

/// What a constraint solver makes of a candidate: fine, better replaced by another candidate, or
/// not to be had at all.
#[derive(Debug, PartialEq, Eq)]
pub enum ConstraintViolation<T> {
    /// The candidate satisfies the constraints
    Satisfied,
    /// The candidate violates the constraints; the next one worth trying is given
    ReplaceWith(T),
    /// The candidate violates the constraints, and no later one can satisfy them
    Violation,
}

/// Trait representing an instruction
pub trait Instruction: Sized {
    /// Return a random instruction
    fn random() -> Self;

    /// Applies a random mutation to an instruction
    fn mutate(&mut self);

    /// Returns the first instruction
    fn first() -> Self;

    /// Increments the instruction
    fn increment(&mut self) -> IterationResult;

    /// returns the machine-code representation in bytes;
    fn to_bytes(&self) -> Vec<u8>;

    /// disassembles a sequence of bytes into one machine instruction
    fn from_bytes(bytes: &[u8]) -> Self;
}

/// A trait for objects which may be called.
///
/// Implementations may represent native functions, Lisp expressions, machine code programs
/// executed in an emulator, function pointers, etc.
pub trait Callable<Input, Output> {
    /// Calls the given callable object
    fn call(&self, parameters: Input) -> RunResult<Output>;
}

/// A trait for functions that may be searched for.
///
/// Implementations typically represent machine code for such-and-such an architecture
/// complying with this or that calling convention
pub trait Traverse: Sized {
    /// Steps through the search space
    fn increment(&mut self);

    /// Applies a random mutation to the putative program
    fn mutate(&mut self);

    /// Constructs such an object from a sequence of bytes
    fn from_bytes(bytes: &[u8]) -> Self;
}

/// A trait for functions that may be searched for, together with the test cases they must pass.
pub trait Testable {
    /// Steps through the search space
    fn increment(&mut self);

    /// Steps through the search space until the test cases pass
    fn next(&mut self);

    /// Returns true if all the test cases pass, false otherwise
    fn pass(&self) -> bool;

    /// Applies a random mutation to the putative program
    fn mutate(&mut self);
}

} // verus!
