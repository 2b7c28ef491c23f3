//! Miscellaneous utilities for decoding the machine instructions in the Intel 8080 family. That
//! includes Z80, SM83 and of course the 8080 itself
use vstd::prelude::*;

verus! {

/// An 8-bit register
#[allow(missing_docs)]
#[derive(Clone, Copy, Debug, PartialEq, Eq, Structural)]
pub enum R8 {
    A,
    B,
    C,
    D,
    E,
    H,
    L,
    M,
    Ixh,
    Ixl,
    Iyh,
    Iyl,
}

/// A register pair
#[derive(Clone, Copy, Debug, PartialEq, Eq, Structural)]
#[allow(missing_docs)]
pub enum R16 {
    Bc,
    De,
    Hl,
    Ix,
    Iy,
    Sp,
    Pc,
}

/// A condition (as used, for example, by conditional call etc)
#[derive(Clone, Copy, Debug, PartialEq, Eq, Structural)]
#[allow(missing_docs)]
pub enum Cond {
    NZ,
    Z,
    NC,
    C,
    PO,
    PE,
    P,
    M,
    Always,
}

/// An IM mode
#[derive(Clone, Copy, Debug, PartialEq, Eq, Structural)]
#[allow(missing_docs)]
pub enum Im {
    Im0,
    Im1,
    Im2,
}

/// An instruction.
#[derive(Clone, Copy, Debug, PartialEq, Eq, Structural)]
#[allow(missing_docs)]
pub enum Instruction {
    Nop,
    Exaf,
}

/// Bundles together an instruction and it's length
#[derive(Clone, Copy, Debug, PartialEq, Eq, Structural)]
#[allow(missing_docs)]
pub struct InstructionData {
    pub insn: Instruction,
    pub len: usize,
}

impl InstructionData {
    fn new(insn: Instruction, len: usize) -> (r: Self)
        ensures
            r == (InstructionData { insn, len }),
    {
        Self { insn, len }
    }
}

/// Bits 6 and 7 of an opcode.
pub open spec fn spec_x(i: u8) -> u8 {
    i >> 6u8 & 0x07
}

/// Bit 3 of an opcode.
pub open spec fn spec_p(i: u8) -> u8 {
    i >> 3u8 & 0x01
}

/// Bit 3 of an opcode.
pub open spec fn spec_q(i: u8) -> u8 {
    i >> 3u8 & 0x01
}

/// Bits 3 to 5 of an opcode.
pub open spec fn spec_y(i: u8) -> u8 {
    i >> 3u8 & 0x07
}

/// Bits 0 to 2 of an opcode.
pub open spec fn spec_z(i: u8) -> u8 {
    i & 0x07
}

fn x(i: u8) -> (r: u8)
    ensures
        r == spec_x(i),
{
    i >> 6u8 & 0x07
}

fn p(i: u8) -> (r: u8)
    ensures
        r == spec_p(i),
{
    i >> 3u8 & 0x01
}

fn q(i: u8) -> (r: u8)
    ensures
        r == spec_q(i),
{
    i >> 3u8 & 0x01
}

fn y(i: u8) -> (r: u8)
    ensures
        r == spec_y(i),
{
    i >> 3u8 & 0x07
}

fn z(i: u8) -> (r: u8)
    ensures
        r == spec_z(i),
{
    i & 0x07
}

/// The opcodes that the parser knows: those whose fields (x, y, z) are (0, 0, 0) or (0, 1, 0).
pub open spec fn known_opcode(opcode: u8) -> bool {
    spec_x(opcode) == 0 && spec_z(opcode) == 0 && (spec_y(opcode) == 0 || spec_y(opcode) == 1)
}

/// What the parsers make of a known opcode: (0, 0, 0) is `nop`, (0, 1, 0) is `ex af, af'`;
/// one byte long either way.
pub open spec fn parsed(opcode: u8) -> InstructionData {
    if spec_y(opcode) == 0 {
        InstructionData { insn: Instruction::Nop, len: 1 }
    } else {
        InstructionData { insn: Instruction::Exaf, len: 1 }
    }
}

/// Parses a Intel 8080 instruction. Only the opcodes that `known_opcode` admits can be parsed.
pub fn parse_i8080(encoding: &[u8]) -> (r: InstructionData)
    requires
        encoding@.len() > 0,
        known_opcode(encoding@[0]),
    ensures
        r == parsed(encoding@[0]),
{
    let opcode = encoding[0];
    let _unused = (p(opcode), q(opcode));
    if y(opcode) == 0 {
        InstructionData::new(Instruction::Nop, 1)
    } else {
        InstructionData::new(Instruction::Exaf, 1)
    }
}

/// Parses a SM83 instruction: the same as the 8080 parser, on the same opcodes.
pub fn parse_sm83(encoding: &[u8]) -> (r: InstructionData)
    requires
        encoding@.len() > 0,
        known_opcode(encoding@[0]),
    ensures
        r == parsed(encoding@[0]),
{
    parse_i8080(encoding)
}

} // verus!
