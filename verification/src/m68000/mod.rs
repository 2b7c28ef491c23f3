//! This is the strop back-end targeting the Motorola 68000, decoded by the `m68000` crate.
pub mod emu;
pub mod isa;
pub mod prune;

pub use emu::{Emulator, Ram};
pub use isa::Insn;
pub use prune::Prune;
