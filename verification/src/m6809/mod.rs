//! The back-end targeting the Motorola 6809.
pub mod diss;
pub mod isa;
pub mod settle;

pub use isa::Insn;
