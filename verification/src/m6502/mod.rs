//! This is the back-end targeting the MOS 6502, a well-known 8-bit retro CPU.
pub mod csp;
pub mod diss;
pub mod emulator;
pub mod isa;

pub use isa::Insn;
pub use isa::Variant6502;

pub use mos6502::instruction::Cmos6502;
pub use mos6502::instruction::Nmos6502;
pub use mos6502::instruction::RevisionA;
pub use mos6502::instruction::Ricoh2a03;
pub use csp::Prune;
pub use emulator::Emulator;
pub use emulator::Subroutine;
