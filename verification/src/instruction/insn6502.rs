//! The `Instruction6502` type, for representing a MOS 6502 instruction by its opcode and
//! operand.
use crate::random::random_below;
use vstd::prelude::*;

verus! {

/// The documented opcodes of the NMOS 6502.
pub open spec fn codepoints() -> Seq<u8> {
    seq![
        0x69, 0x65, 0x75, 0x6d, 0x7d, 0x79, 0x61, 0x71, 0x29, 0x25, 0x35, 0x2d, 0x3d, 0x39, 0x21,
        0x31, 0x0a, 0x06, 0x16, 0x0e, 0x1e, 0x24, 0x2c, 0x10, 0x30, 0x50, 0x70, 0x90, 0xb0, 0xd0,
        0xf0, 0x00, 0xc9, 0xc5, 0xd5, 0xcd, 0xdd, 0xd9, 0xc1, 0xd1, 0xe0, 0xe4, 0xec, 0xc0, 0xc4,
        0xcc, 0xc6, 0xd6, 0xce, 0xde, 0x49, 0x45, 0x55, 0x4d, 0x5d, 0x59, 0x41, 0x51, 0x18, 0x38,
        0x58, 0x78, 0xb8, 0xd8, 0xf8, 0xe6, 0xf6, 0xee, 0xfe, 0x4c, 0x6c, 0x20, 0xa9, 0xa5, 0xb5,
        0xad, 0xbd, 0xb9, 0xa1, 0xb1, 0xa2, 0xa6, 0xb6, 0xae, 0xbe, 0xa0, 0xa4, 0xb4, 0xac, 0xbc,
        0x4a, 0x46, 0x56, 0x4e, 0x5e, 0xea, 0x09, 0x05, 0x15, 0x0d, 0x1d, 0x19, 0x01, 0x11, 0xaa,
        0x8a, 0xca, 0xe8, 0xa8, 0x98, 0x88, 0xc8, 0x2a, 0x26, 0x36, 0x2e, 0x3e, 0x6a, 0x66, 0x76,
        0x6e, 0x7e, 0x40, 0x60, 0xe9, 0xe5, 0xf5, 0xed, 0xfd, 0xf9, 0xe1, 0xf1, 0x85, 0x95, 0x8d,
        0x9d, 0x99, 0x81, 0x91, 0x9a, 0xba, 0x48, 0x68, 0x08, 0x28, 0x86, 0x96, 0x8e, 0x84, 0x94,
        0x8c,
    ]
}

/// Returns one random, valid opcode.
pub fn random_codepoint() -> (r: u8)
    ensures
        codepoints().contains(r),
{
    let v: Vec<u8> = vec![
        0x69, 0x65, 0x75, 0x6d, 0x7d, 0x79, 0x61, 0x71, 0x29, 0x25, 0x35, 0x2d, 0x3d, 0x39, 0x21,
        0x31, 0x0a, 0x06, 0x16, 0x0e, 0x1e, 0x24, 0x2c, 0x10, 0x30, 0x50, 0x70, 0x90, 0xb0, 0xd0,
        0xf0, 0x00, 0xc9, 0xc5, 0xd5, 0xcd, 0xdd, 0xd9, 0xc1, 0xd1, 0xe0, 0xe4, 0xec, 0xc0, 0xc4,
        0xcc, 0xc6, 0xd6, 0xce, 0xde, 0x49, 0x45, 0x55, 0x4d, 0x5d, 0x59, 0x41, 0x51, 0x18, 0x38,
        0x58, 0x78, 0xb8, 0xd8, 0xf8, 0xe6, 0xf6, 0xee, 0xfe, 0x4c, 0x6c, 0x20, 0xa9, 0xa5, 0xb5,
        0xad, 0xbd, 0xb9, 0xa1, 0xb1, 0xa2, 0xa6, 0xb6, 0xae, 0xbe, 0xa0, 0xa4, 0xb4, 0xac, 0xbc,
        0x4a, 0x46, 0x56, 0x4e, 0x5e, 0xea, 0x09, 0x05, 0x15, 0x0d, 0x1d, 0x19, 0x01, 0x11, 0xaa,
        0x8a, 0xca, 0xe8, 0xa8, 0x98, 0x88, 0xc8, 0x2a, 0x26, 0x36, 0x2e, 0x3e, 0x6a, 0x66, 0x76,
        0x6e, 0x7e, 0x40, 0x60, 0xe9, 0xe5, 0xf5, 0xed, 0xfd, 0xf9, 0xe1, 0xf1, 0x85, 0x95, 0x8d,
        0x9d, 0x99, 0x81, 0x91, 0x9a, 0xba, 0x48, 0x68, 0x08, 0x28, 0x86, 0x96, 0x8e, 0x84, 0x94,
        0x8c,
    ];
    assert(v@ =~= codepoints());
    let k = random_below(v.len());
    assert(codepoints()[k as int] == v@[k as int]);
    v[k]
}

/// The operand of a 6502 instruction, as the disassembler names the addressing modes.
#[derive(Clone, Copy, Debug, PartialEq, Eq, Structural)]
pub enum Operand {
    Implied,
    Accumulator,
    IndirectYIndexed(u8),
    XIndexedIndirect(u8),
    Relative(u8),
    Indirect(u16),
    Immediate(u8),
    Absolute(u16),
    AbsoluteX(u16),
    AbsoluteY(u16),
    ZeroPage(u8),
    ZeroPageX(u8),
    ZeroPageY(u8),
}

/// The bytes that encode an opcode and its operand: an address of two bytes low byte first.
pub open spec fn encoding(opcode: u8, operand: Operand) -> Seq<u8> {
    match operand {
        Operand::Implied | Operand::Accumulator => seq![opcode],
        Operand::Immediate(v) | Operand::IndirectYIndexed(v) | Operand::XIndexedIndirect(v)
        | Operand::ZeroPage(v) | Operand::ZeroPageX(v) | Operand::ZeroPageY(v)
        | Operand::Relative(v) => seq![opcode, v],
        Operand::Indirect(a) | Operand::Absolute(a) | Operand::AbsoluteX(a) | Operand::AbsoluteY(
            a,
        ) => seq![opcode, (a % 256) as u8, (a / 256) as u8],
    }
}

/// Represents a 6502 Instruction
#[derive(Clone, Copy, Debug, PartialEq, Eq, Structural)]
pub struct Instruction6502 {
    pub opcode: u8,
    pub operand: Operand,
}

impl Instruction6502 {
    /// Length of the instruction, in bytes
    pub fn length(&self) -> (r: usize)
        ensures
            r == encoding(self.opcode, self.operand).len(),
    {
        match self.operand {
            Operand::Implied => 1,
            Operand::Accumulator => 1,
            Operand::IndirectYIndexed(_) => 2,
            Operand::XIndexedIndirect(_) => 2,
            Operand::Relative(_) => 2,
            Operand::Indirect(_) => 3,
            Operand::Immediate(_) => 2,
            Operand::Absolute(_) => 3,
            Operand::AbsoluteX(_) => 3,
            Operand::AbsoluteY(_) => 3,
            Operand::ZeroPage(_) | Operand::ZeroPageX(_) | Operand::ZeroPageY(_) => 2,
        }
    }

    /// The bytes that encode the instruction.
    pub fn as_bytes(&self) -> (r: Vec<u8>)
        ensures
            r@ == encoding(self.opcode, self.operand),
    {
        let r = match self.operand {
            Operand::Implied => vec![self.opcode],
            Operand::Accumulator => vec![self.opcode],
            Operand::Immediate(val) => vec![self.opcode, val],
            Operand::IndirectYIndexed(addr) | Operand::XIndexedIndirect(addr) => {
                vec![self.opcode, addr]
            },
            Operand::ZeroPage(addr) | Operand::ZeroPageX(addr) | Operand::ZeroPageY(addr) => {
                vec![self.opcode, addr]
            },
            Operand::Relative(offset) => vec![self.opcode, offset],
            Operand::Indirect(addr) => vec![self.opcode, (addr % 256) as u8, (addr / 256) as u8],
            Operand::Absolute(addr) | Operand::AbsoluteX(addr) | Operand::AbsoluteY(addr) => {
                vec![self.opcode, (addr % 256) as u8, (addr / 256) as u8]
            },
        };
        assert(r@ =~= encoding(self.opcode, self.operand));
        r
    }
}

} // verus!
