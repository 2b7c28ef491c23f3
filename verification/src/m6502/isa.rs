//! Machine instructions for the MOS 6502 and its variants, decoded by the `mos6502` crate.
use crate::m6809::isa::{all_ff, incr_bytes};
use crate::m6502::emulator::{
    cmos6502_step, nmos6502_step, revision_a_step, ricoh2a03_step, step_cmos, step_nmos,
    step_revision_a, step_ricoh, Regs6502,
};
use crate::static_analysis::{Fixup, FixupReason};
use crate::{ConstraintViolation, IterationResult, StepError};
use std::marker::PhantomData;
use vstd::prelude::*;

verus! {

#[verifier::external_type_specification]
#[verifier::external_body]
pub struct ExNmos6502(mos6502::instruction::Nmos6502);

#[verifier::external_type_specification]
#[verifier::external_body]
pub struct ExCmos6502(mos6502::instruction::Cmos6502);

#[verifier::external_type_specification]
#[verifier::external_body]
pub struct ExRevisionA(mos6502::instruction::RevisionA);

#[verifier::external_type_specification]
#[verifier::external_body]
pub struct ExRicoh2a03(mos6502::instruction::Ricoh2a03);

/// What the decoder of the NMOS 6502 makes of an opcode: the positions of the instruction and of
/// the addressing mode in the declarations of the `mos6502` crate's `Instruction` and
/// `AddressingMode`, or nothing for an opcode it does not know.
pub uninterp spec fn nmos6502_decode(opcode: u8) -> Option<(u8, u8)>;

/// What the decoder of the 65C02 makes of an opcode, as for `nmos6502_decode`.
pub uninterp spec fn cmos6502_decode(opcode: u8) -> Option<(u8, u8)>;

/// What the decoder of the early 6502 without `ror` makes of an opcode, as for `nmos6502_decode`.
pub uninterp spec fn revision_a_decode(opcode: u8) -> Option<(u8, u8)>;

/// What the decoder of the Ricoh 2A03 makes of an opcode, as for `nmos6502_decode`.
pub uninterp spec fn ricoh2a03_decode(opcode: u8) -> Option<(u8, u8)>;

/// Calls `<mos6502::instruction::Nmos6502 as mos6502::Variant>::decode` and hands back the
/// instruction and the addressing mode as their positions in the crate's enums. The contract
/// names the result, and claims that the 65C02 knows every opcode that the NMOS part knows: its
/// decoder redefines some opcodes (each as a known instruction) and falls back on the NMOS table
/// for all the others.
#[verifier::external_body]
fn decode_nmos6502(opcode: u8) -> (r: Option<(u8, u8)>)
    ensures
        r == nmos6502_decode(opcode),
        r is Some ==> cmos6502_decode(opcode) is Some,
{
    match <mos6502::instruction::Nmos6502 as mos6502::Variant>::decode(opcode) {
        Some((i, m)) => Some((i as u8, m as u8)),
        None => None,
    }
}

/// Calls `<mos6502::instruction::Cmos6502 as mos6502::Variant>::decode`, converting its result as
/// `decode_nmos6502` does. The contract names the result.
#[verifier::external_body]
fn decode_cmos6502(opcode: u8) -> (r: Option<(u8, u8)>)
    ensures
        r == cmos6502_decode(opcode),
{
    match <mos6502::instruction::Cmos6502 as mos6502::Variant>::decode(opcode) {
        Some((i, m)) => Some((i as u8, m as u8)),
        None => None,
    }
}

/// Calls `<mos6502::instruction::RevisionA as mos6502::Variant>::decode`, converting its result
/// as `decode_nmos6502` does. The contract names the result, and claims that the 65C02 knows
/// every opcode this part knows: its decoder is the NMOS one with `ror` taken out.
#[verifier::external_body]
fn decode_revision_a(opcode: u8) -> (r: Option<(u8, u8)>)
    ensures
        r == revision_a_decode(opcode),
        r is Some ==> cmos6502_decode(opcode) is Some,
{
    match <mos6502::instruction::RevisionA as mos6502::Variant>::decode(opcode) {
        Some((i, m)) => Some((i as u8, m as u8)),
        None => None,
    }
}

/// Calls `<mos6502::instruction::Ricoh2a03 as mos6502::Variant>::decode`, converting its result
/// as `decode_nmos6502` does. The contract names the result, and claims that the 65C02 knows
/// every opcode this part knows: its decoder is the NMOS one with `adc` and `sbc` renamed.
#[verifier::external_body]
fn decode_ricoh2a03(opcode: u8) -> (r: Option<(u8, u8)>)
    ensures
        r == ricoh2a03_decode(opcode),
        r is Some ==> cmos6502_decode(opcode) is Some,
{
    match <mos6502::instruction::Ricoh2a03 as mos6502::Variant>::decode(opcode) {
        Some((i, m)) => Some((i as u8, m as u8)),
        None => None,
    }
}

/// A variant of the 6502: which opcodes it knows, and what they mean.
pub trait Variant6502: Sized {
    /// What the variant's decoder makes of an opcode.
    spec fn decoding(opcode: u8) -> Option<(u8, u8)>;

    /// Decodes an opcode. Every opcode that a variant knows, the 65C02 knows too.
    fn decode_opcode(opcode: u8) -> (r: Option<(u8, u8)>)
        ensures
            r == Self::decoding(opcode),
            r is Some ==> cmos6502_decode(opcode) is Some,
    ;

    /// The registers and memory after the variant's CPU runs one instruction from `regs` and
    /// `memory`.
    spec fn stepped(regs: Regs6502, memory: Seq<u8>) -> (Regs6502, Seq<u8>);

    /// Runs one instruction on the variant's CPU, from the registers and 64 KiB of memory.
    fn step(regs: Regs6502, memory: &[u8]) -> (r: (Regs6502, Vec<u8>))
        requires
            memory@.len() == 0x10000,
        ensures
            r.0 == Self::stepped(regs, memory@).0,
            r.1@ == Self::stepped(regs, memory@).1,
            r.1@.len() == 0x10000,
    ;
}

impl Variant6502 for mos6502::instruction::Nmos6502 {
    open spec fn decoding(opcode: u8) -> Option<(u8, u8)> {
        nmos6502_decode(opcode)
    }

    fn decode_opcode(opcode: u8) -> (r: Option<(u8, u8)>) {
        decode_nmos6502(opcode)
    }

    open spec fn stepped(regs: Regs6502, memory: Seq<u8>) -> (Regs6502, Seq<u8>) {
        nmos6502_step(regs, memory)
    }

    fn step(regs: Regs6502, memory: &[u8]) -> (r: (Regs6502, Vec<u8>)) {
        step_nmos(regs, memory)
    }
}

impl Variant6502 for mos6502::instruction::Cmos6502 {
    open spec fn decoding(opcode: u8) -> Option<(u8, u8)> {
        cmos6502_decode(opcode)
    }

    fn decode_opcode(opcode: u8) -> (r: Option<(u8, u8)>) {
        decode_cmos6502(opcode)
    }

    open spec fn stepped(regs: Regs6502, memory: Seq<u8>) -> (Regs6502, Seq<u8>) {
        cmos6502_step(regs, memory)
    }

    fn step(regs: Regs6502, memory: &[u8]) -> (r: (Regs6502, Vec<u8>)) {
        step_cmos(regs, memory)
    }
}

impl Variant6502 for mos6502::instruction::RevisionA {
    open spec fn decoding(opcode: u8) -> Option<(u8, u8)> {
        revision_a_decode(opcode)
    }

    fn decode_opcode(opcode: u8) -> (r: Option<(u8, u8)>) {
        decode_revision_a(opcode)
    }

    open spec fn stepped(regs: Regs6502, memory: Seq<u8>) -> (Regs6502, Seq<u8>) {
        revision_a_step(regs, memory)
    }

    fn step(regs: Regs6502, memory: &[u8]) -> (r: (Regs6502, Vec<u8>)) {
        step_revision_a(regs, memory)
    }
}

impl Variant6502 for mos6502::instruction::Ricoh2a03 {
    open spec fn decoding(opcode: u8) -> Option<(u8, u8)> {
        ricoh2a03_decode(opcode)
    }

    fn decode_opcode(opcode: u8) -> (r: Option<(u8, u8)>) {
        decode_ricoh2a03(opcode)
    }

    open spec fn stepped(regs: Regs6502, memory: Seq<u8>) -> (Regs6502, Seq<u8>) {
        ricoh2a03_step(regs, memory)
    }

    fn step(regs: Regs6502, memory: &[u8]) -> (r: (Regs6502, Vec<u8>)) {
        step_ricoh(regs, memory)
    }
}

/// The instructions of the 6502 family, in the order in which the `mos6502` crate declares them.
#[derive(Clone, Copy, Debug, PartialEq, Eq, Structural)]
pub enum Mnemonic {
    ADC,
    ADCnd,
    AND,
    ASL,
    BCC,
    BCS,
    BEQ,
    BIT,
    BMI,
    BNE,
    BPL,
    BRA,
    BRK,
    BRKcld,
    BVC,
    BVS,
    CLC,
    CLD,
    CLI,
    CLV,
    CMP,
    CPX,
    CPY,
    DEC,
    DEX,
    DEY,
    EOR,
    INC,
    INX,
    INY,
    JMP,
    JSR,
    LDA,
    LDX,
    LDY,
    LSR,
    NOP,
    ORA,
    PHA,
    PHX,
    PHY,
    PHP,
    PLA,
    PLX,
    PLY,
    PLP,
    ROL,
    ROR,
    RTI,
    RTS,
    SBC,
    SBCnd,
    SEC,
    SED,
    SEI,
    STA,
    STX,
    STY,
    STZ,
    TAX,
    TAY,
    TRB,
    TSB,
    TSX,
    TXA,
    TXS,
    TYA,
}

/// The addressing modes of the 6502 family, in the order in which the `mos6502` crate declares
/// them.
#[derive(Clone, Copy, Debug, PartialEq, Eq, Structural)]
pub enum AddressingMode {
    Accumulator,
    Implied,
    Immediate,
    ZeroPage,
    ZeroPageX,
    ZeroPageY,
    Relative,
    Absolute,
    AbsoluteX,
    AbsoluteY,
    BuggyIndirect,
    Indirect,
    IndexedIndirectX,
    IndirectIndexedY,
    ZeroPageIndirect,
}

/// The instruction at position `i` of the declaration (the last one for any later position).
pub open spec fn mnemonic_at(i: u8) -> Mnemonic {
    match i {
        0 => Mnemonic::ADC,
        1 => Mnemonic::ADCnd,
        2 => Mnemonic::AND,
        3 => Mnemonic::ASL,
        4 => Mnemonic::BCC,
        5 => Mnemonic::BCS,
        6 => Mnemonic::BEQ,
        7 => Mnemonic::BIT,
        8 => Mnemonic::BMI,
        9 => Mnemonic::BNE,
        10 => Mnemonic::BPL,
        11 => Mnemonic::BRA,
        12 => Mnemonic::BRK,
        13 => Mnemonic::BRKcld,
        14 => Mnemonic::BVC,
        15 => Mnemonic::BVS,
        16 => Mnemonic::CLC,
        17 => Mnemonic::CLD,
        18 => Mnemonic::CLI,
        19 => Mnemonic::CLV,
        20 => Mnemonic::CMP,
        21 => Mnemonic::CPX,
        22 => Mnemonic::CPY,
        23 => Mnemonic::DEC,
        24 => Mnemonic::DEX,
        25 => Mnemonic::DEY,
        26 => Mnemonic::EOR,
        27 => Mnemonic::INC,
        28 => Mnemonic::INX,
        29 => Mnemonic::INY,
        30 => Mnemonic::JMP,
        31 => Mnemonic::JSR,
        32 => Mnemonic::LDA,
        33 => Mnemonic::LDX,
        34 => Mnemonic::LDY,
        35 => Mnemonic::LSR,
        36 => Mnemonic::NOP,
        37 => Mnemonic::ORA,
        38 => Mnemonic::PHA,
        39 => Mnemonic::PHX,
        40 => Mnemonic::PHY,
        41 => Mnemonic::PHP,
        42 => Mnemonic::PLA,
        43 => Mnemonic::PLX,
        44 => Mnemonic::PLY,
        45 => Mnemonic::PLP,
        46 => Mnemonic::ROL,
        47 => Mnemonic::ROR,
        48 => Mnemonic::RTI,
        49 => Mnemonic::RTS,
        50 => Mnemonic::SBC,
        51 => Mnemonic::SBCnd,
        52 => Mnemonic::SEC,
        53 => Mnemonic::SED,
        54 => Mnemonic::SEI,
        55 => Mnemonic::STA,
        56 => Mnemonic::STX,
        57 => Mnemonic::STY,
        58 => Mnemonic::STZ,
        59 => Mnemonic::TAX,
        60 => Mnemonic::TAY,
        61 => Mnemonic::TRB,
        62 => Mnemonic::TSB,
        63 => Mnemonic::TSX,
        64 => Mnemonic::TXA,
        65 => Mnemonic::TXS,
        _ => Mnemonic::TYA,
    }
}

/// The addressing mode at position `i` of the declaration (the last one for any later position).
pub open spec fn mode_at(i: u8) -> AddressingMode {
    match i {
        0 => AddressingMode::Accumulator,
        1 => AddressingMode::Implied,
        2 => AddressingMode::Immediate,
        3 => AddressingMode::ZeroPage,
        4 => AddressingMode::ZeroPageX,
        5 => AddressingMode::ZeroPageY,
        6 => AddressingMode::Relative,
        7 => AddressingMode::Absolute,
        8 => AddressingMode::AbsoluteX,
        9 => AddressingMode::AbsoluteY,
        10 => AddressingMode::BuggyIndirect,
        11 => AddressingMode::Indirect,
        12 => AddressingMode::IndexedIndirectX,
        13 => AddressingMode::IndirectIndexedY,
        _ => AddressingMode::ZeroPageIndirect,
    }
}

/// Converts the position of an instruction in the declaration to the instruction.
fn mnemonic_from(i: u8) -> (r: Mnemonic)
    ensures
        r == mnemonic_at(i),
{
    match i {
        0 => Mnemonic::ADC,
        1 => Mnemonic::ADCnd,
        2 => Mnemonic::AND,
        3 => Mnemonic::ASL,
        4 => Mnemonic::BCC,
        5 => Mnemonic::BCS,
        6 => Mnemonic::BEQ,
        7 => Mnemonic::BIT,
        8 => Mnemonic::BMI,
        9 => Mnemonic::BNE,
        10 => Mnemonic::BPL,
        11 => Mnemonic::BRA,
        12 => Mnemonic::BRK,
        13 => Mnemonic::BRKcld,
        14 => Mnemonic::BVC,
        15 => Mnemonic::BVS,
        16 => Mnemonic::CLC,
        17 => Mnemonic::CLD,
        18 => Mnemonic::CLI,
        19 => Mnemonic::CLV,
        20 => Mnemonic::CMP,
        21 => Mnemonic::CPX,
        22 => Mnemonic::CPY,
        23 => Mnemonic::DEC,
        24 => Mnemonic::DEX,
        25 => Mnemonic::DEY,
        26 => Mnemonic::EOR,
        27 => Mnemonic::INC,
        28 => Mnemonic::INX,
        29 => Mnemonic::INY,
        30 => Mnemonic::JMP,
        31 => Mnemonic::JSR,
        32 => Mnemonic::LDA,
        33 => Mnemonic::LDX,
        34 => Mnemonic::LDY,
        35 => Mnemonic::LSR,
        36 => Mnemonic::NOP,
        37 => Mnemonic::ORA,
        38 => Mnemonic::PHA,
        39 => Mnemonic::PHX,
        40 => Mnemonic::PHY,
        41 => Mnemonic::PHP,
        42 => Mnemonic::PLA,
        43 => Mnemonic::PLX,
        44 => Mnemonic::PLY,
        45 => Mnemonic::PLP,
        46 => Mnemonic::ROL,
        47 => Mnemonic::ROR,
        48 => Mnemonic::RTI,
        49 => Mnemonic::RTS,
        50 => Mnemonic::SBC,
        51 => Mnemonic::SBCnd,
        52 => Mnemonic::SEC,
        53 => Mnemonic::SED,
        54 => Mnemonic::SEI,
        55 => Mnemonic::STA,
        56 => Mnemonic::STX,
        57 => Mnemonic::STY,
        58 => Mnemonic::STZ,
        59 => Mnemonic::TAX,
        60 => Mnemonic::TAY,
        61 => Mnemonic::TRB,
        62 => Mnemonic::TSB,
        63 => Mnemonic::TSX,
        64 => Mnemonic::TXA,
        65 => Mnemonic::TXS,
        _ => Mnemonic::TYA,
    }
}

/// Converts the position of an addressing mode in the declaration to the addressing mode.
fn mode_from(i: u8) -> (r: AddressingMode)
    ensures
        r == mode_at(i),
{
    match i {
        0 => AddressingMode::Accumulator,
        1 => AddressingMode::Implied,
        2 => AddressingMode::Immediate,
        3 => AddressingMode::ZeroPage,
        4 => AddressingMode::ZeroPageX,
        5 => AddressingMode::ZeroPageY,
        6 => AddressingMode::Relative,
        7 => AddressingMode::Absolute,
        8 => AddressingMode::AbsoluteX,
        9 => AddressingMode::AbsoluteY,
        10 => AddressingMode::BuggyIndirect,
        11 => AddressingMode::Indirect,
        12 => AddressingMode::IndexedIndirectX,
        13 => AddressingMode::IndirectIndexedY,
        _ => AddressingMode::ZeroPageIndirect,
    }
}

/// A decoding, as the decoder hands it back, in terms of the instruction and addressing mode.
pub open spec fn decoded(d: (u8, u8)) -> (Mnemonic, AddressingMode) {
    (mnemonic_at(d.0), mode_at(d.1))
}

/// The length in bytes of an instruction with the given addressing mode.
pub open spec fn mode_len(mode: AddressingMode) -> nat {
    match mode {
        AddressingMode::Accumulator | AddressingMode::Implied => 1,
        AddressingMode::Immediate | AddressingMode::ZeroPage | AddressingMode::ZeroPageX
        | AddressingMode::ZeroPageY | AddressingMode::ZeroPageIndirect | AddressingMode::Relative
        | AddressingMode::IndexedIndirectX | AddressingMode::IndirectIndexedY => 2,
        AddressingMode::Absolute | AddressingMode::AbsoluteX | AddressingMode::AbsoluteY
        | AddressingMode::Indirect | AddressingMode::BuggyIndirect => 3,
    }
}

/// The address that an operand names, if it names one: a zero-page address is the operand byte,
/// an absolute address the little-endian word of the two operand bytes.
pub open spec fn mode_address(mode: AddressingMode, b: Seq<u8>) -> Option<u16> {
    match mode {
        AddressingMode::Accumulator | AddressingMode::Implied | AddressingMode::Immediate
        | AddressingMode::Relative => None,
        AddressingMode::ZeroPage | AddressingMode::ZeroPageX | AddressingMode::ZeroPageY
        | AddressingMode::ZeroPageIndirect | AddressingMode::IndexedIndirectX
        | AddressingMode::IndirectIndexedY => Some(b[1] as u16),
        AddressingMode::Absolute | AddressingMode::AbsoluteX | AddressingMode::AbsoluteY
        | AddressingMode::Indirect | AddressingMode::BuggyIndirect => Some(
            (b[1] + 256 * b[2]) as u16,
        ),
    }
}

/// Arithmetic and logic instructions, which read their operand.
pub open spec fn is_alu(m: Mnemonic) -> bool {
    matches!(m, Mnemonic::ADC | Mnemonic::ADCnd | Mnemonic::AND | Mnemonic::BIT | Mnemonic::EOR
        | Mnemonic::CMP | Mnemonic::CPX | Mnemonic::CPY | Mnemonic::ORA | Mnemonic::SBC
        | Mnemonic::SBCnd)
}

/// Read-modify-write instructions, which read and write their operand.
pub open spec fn is_rmw(m: Mnemonic) -> bool {
    matches!(m, Mnemonic::INC | Mnemonic::DEC | Mnemonic::ROR | Mnemonic::ROL | Mnemonic::ASL
        | Mnemonic::LSR | Mnemonic::TSB | Mnemonic::TRB)
}

/// Load instructions, which read their operand.
pub open spec fn is_load(m: Mnemonic) -> bool {
    matches!(m, Mnemonic::LDA | Mnemonic::LDY | Mnemonic::LDX)
}

/// Store instructions, which write their operand.
pub open spec fn is_store(m: Mnemonic) -> bool {
    matches!(m, Mnemonic::STA | Mnemonic::STX | Mnemonic::STY | Mnemonic::STZ)
}

/// The first opcode at or after `op` that the variant `V` knows, if there is one.
pub open spec fn first_known<V: Variant6502>(op: int) -> Option<u8>
    decreases 256 - op,
{
    if op < 0 || op > 255 {
        None
    } else if V::decoding(op as u8) is Some {
        Some(op as u8)
    } else {
        first_known::<V>(op + 1)
    }
}

/// The bytes of an instruction after its opcode has been advanced to the first one that the
/// variant `V` knows (or to 0xff when there is none), and whether there was one.
pub open spec fn fixed<V: Variant6502>(b: Seq<u8>) -> (Seq<u8>, bool) {
    match first_known::<V>(b[0] as int) {
        Some(op) => (b.update(0, op), true),
        None => (b.update(0, 0xffu8), false),
    }
}

/// Represents a 6502 machine instruction, compatible with some 6502 variant.
#[derive(Default, PartialOrd, PartialEq)]
pub struct Insn<V: Variant6502>(pub [u8; 3], pub PhantomData<V>);

impl<V: Variant6502> Clone for Insn<V> {
    fn clone(&self) -> (r: Self)
        ensures
            r == *self,
    {
        Insn(self.0, PhantomData)
    }
}

impl<V: Variant6502> Copy for Insn<V> {
}

impl<V: Variant6502> Insn<V> {
    /// The bytes of the instruction (the operand bytes beyond its length are unused).
    pub open spec fn bytes(self) -> Seq<u8> {
        self.0@
    }

    /// Whether the 65C02 decoder, by which `decode` goes, knows the opcode.
    pub open spec fn decodable(self) -> bool {
        cmos6502_decode(self.0[0]) is Some
    }

    /// What `decode` gives back.
    pub open spec fn decoding(self) -> (Mnemonic, AddressingMode) {
        decoded(cmos6502_decode(self.0[0])->0)
    }

    /// The length of the instruction in bytes.
    pub open spec fn length(self) -> nat {
        mode_len(self.decoding().1)
    }

    /// The address that the operand names, if it names one.
    pub open spec fn operand_address(self) -> Option<u16> {
        mode_address(self.decoding().1, self.bytes())
    }

    /// The address that the instruction writes to, if any.
    pub open spec fn written(self) -> Option<u16> {
        let m = self.decoding().0;
        if is_rmw(m) || is_store(m) {
            self.operand_address()
        } else {
            None
        }
    }

    /// The address that the instruction reads from, if any.
    pub open spec fn read(self) -> Option<u16> {
        let m = self.decoding().0;
        if is_alu(m) || is_rmw(m) || is_load(m) {
            self.operand_address()
        } else {
            None
        }
    }

    /// Whether the variant knows the opcode, and so does the 65C02: what a successful fixup
    /// leaves.
    pub open spec fn known(self) -> bool {
        V::decoding(self.0[0]) is Some && self.decodable()
    }

    /// The first instruction: the opcode and operand bytes all zero.
    pub fn first() -> (r: Self)
        ensures
            r.bytes() == seq![0u8, 0u8, 0u8],
    {
        let r = Insn([0, 0, 0], PhantomData);
        assert(r.bytes() =~= seq![0u8, 0u8, 0u8]);
        r
    }

    /// Steps to the next instruction: increments the encoding as a big-endian number over the
    /// instruction's own bytes, then fixes up the opcode.
    pub fn next(&mut self) -> (r: IterationResult)
        requires
            old(self).decodable(),
        ensures
            final(self).bytes() == fixed::<V>(incr_bytes(old(self).bytes(), old(self).length() - 1)).0,
            r is Ok <==> fixed::<V>(incr_bytes(old(self).bytes(), old(self).length() - 1)).1,
            r is Ok ==> final(self).known(),
    {
        let n = self.len();
        self.incr_at_offset(n - 1);
        self.fixup()
    }

    /// Increments the opcode, and sets all subsequent bytes (i.e. the operand) to 0.
    pub fn skip_to_next_opcode(&mut self) -> (r: IterationResult)
        requires
            old(self).0[0] < 0xff,
        ensures
            final(self).bytes() == fixed::<V>(seq![(old(self).0[0] + 1) as u8, 0u8, 0u8]).0,
            r is Ok <==> fixed::<V>(seq![(old(self).0[0] + 1) as u8, 0u8, 0u8]).1,
            r is Ok ==> final(self).known(),
    {
        self.0 = [self.0[0] + 1, 0, 0];
        assert(self.bytes() =~= seq![(old(self).0[0] + 1) as u8, 0u8, 0u8]);
        self.fixup()
    }

    /// Checks that the instruction is `rts`; if not, asks for it to be advanced.
    pub fn should_return(&self) -> (r: Result<(), Fixup>)
        ensures
            r is Ok <==> self.bytes() == seq![0x60u8, 0u8, 0u8],
            r is Err ==> r->Err_0 == (Fixup { offset: 0, reason: FixupReason::DoesNotReturn }),
    {
        if self.0[0] == 0x60 && self.0[1] == 0 && self.0[2] == 0 {
            assert(self.bytes() =~= seq![0x60u8, 0u8, 0u8]);
            Ok(())
        } else {
            assert(self.bytes() != seq![0x60u8, 0u8, 0u8] || self.bytes()[0] == 0x60);
            Err(Fixup { offset: 0, reason: FixupReason::DoesNotReturn })
        }
    }

    /// Constructs a return instruction `rts`.
    pub fn rts() -> (r: Self)
        ensures
            r.bytes() == seq![0x60u8, 0u8, 0u8],
    {
        let r = Self::new(&[0x60]);
        assert(r.bytes() =~= seq![0x60u8, 0u8, 0u8]);
        r
    }

    /// Constructs a new Insn from a slice of bytes: the first three bytes of the slice, padded
    /// with zeros.
    pub fn new(mc: &[u8]) -> (r: Self)
        ensures
            forall|j: int| 0 <= j < 3 ==> #[trigger] r.bytes()[j] == if j < mc@.len() {
                mc@[j]
            } else {
                0u8
            },
    {
        let mut enc: [u8; 3] = [0, 0, 0];
        let n = if mc.len() < 3 { mc.len() } else { 3 };
        let mut k: usize = 0;
        while k < n
            invariant
                n <= 3,
                n <= mc@.len(),
                n == mc@.len() || n == 3,
                k <= n,
                forall|j: int| 0 <= j < k ==> enc@[j] == mc@[j],
                forall|j: int| k <= j < 3 ==> enc@[j] == 0,
            decreases n - k,
        {
            enc[k] = mc[k];
            k = k + 1;
        }
        Insn(enc, PhantomData)
    }

    /// Increments the big-endian number held in bytes `0..=offset`, wrapping round to zero;
    /// returns false when it wrapped.
    pub fn incr_at_offset(&mut self, offset: usize) -> (r: bool)
        requires
            offset < 3,
        ensures
            final(self).bytes() == incr_bytes(old(self).bytes(), offset as int),
            r == !all_ff(old(self).bytes(), offset as int),
        decreases offset,
    {
        if self.0[offset] < 0xff {
            self.0[offset] = self.0[offset] + 1;
            assert(self.bytes() =~= incr_bytes(old(self).bytes(), offset as int));
            true
        } else {
            self.0[offset] = 0;
            assert(self.bytes() =~= old(self).bytes().update(offset as int, 0));
            assert(incr_bytes(old(self).bytes(), offset as int) == incr_bytes(
                old(self).bytes().update(offset as int, 0),
                offset - 1,
            ));
            if offset == 0 {
                assert(all_ff(old(self).bytes(), 0));
                false
            } else {
                let r = self.incr_at_offset(offset - 1);
                proof {
                    let b = old(self).bytes();
                    let c = b.update(offset as int, 0);
                    if all_ff(c, offset - 1) {
                        assert forall|j: int| 0 <= j <= offset implies b[j] == 0xff by {
                            if j < offset {
                                assert(c[j] == 0xff);
                            }
                        }
                    }
                    if all_ff(b, offset as int) {
                        assert forall|j: int| 0 <= j <= offset - 1 implies c[j] == 0xff by {
                            assert(b[j] == 0xff);
                        }
                    }
                }
                r
            }
        }
    }

    /// Decodes and parses the instruction and returns miscellaneous information about it. The
    /// 65C02 decoder is used whatever the variant.
    pub fn decode(&self) -> (r: (Mnemonic, AddressingMode))
        requires
            self.decodable(),
        ensures
            r == self.decoding(),
    {
        match decode_cmos6502(self.0[0]) {
            Some((i, m)) => (mnemonic_from(i), mode_from(m)),
            None => (Mnemonic::NOP, AddressingMode::Implied),
        }
    }

    /// Whether the 65C02 decoder knows the opcode.
    pub fn is_decodable(&self) -> (r: bool)
        ensures
            r == self.decodable(),
    {
        decode_cmos6502(self.0[0]).is_some()
    }

    /// The length of the instruction in bytes.
    pub fn len(&self) -> (r: usize)
        requires
            self.decodable(),
        ensures
            r == self.length(),
            1 <= r <= 3,
    {
        match self.decode().1 {
            AddressingMode::Accumulator => 1,
            AddressingMode::Implied => 1,
            AddressingMode::Immediate => 2,
            AddressingMode::ZeroPage => 2,
            AddressingMode::ZeroPageX => 2,
            AddressingMode::ZeroPageY => 2,
            AddressingMode::ZeroPageIndirect => 2,
            AddressingMode::Relative => 2,
            AddressingMode::IndexedIndirectX => 2,
            AddressingMode::IndirectIndexedY => 2,
            AddressingMode::Absolute => 3,
            AddressingMode::AbsoluteX => 3,
            AddressingMode::AbsoluteY => 3,
            AddressingMode::Indirect => 3,
            AddressingMode::BuggyIndirect => 3,
        }
    }

    /// The machine code of the instruction: its bytes, as many as its length.
    pub fn encode(&self) -> (r: Vec<u8>)
        requires
            self.decodable(),
        ensures
            r@ == self.bytes().take(self.length() as int),
    {
        let n = self.len();
        let mut v: Vec<u8> = Vec::new();
        let mut k: usize = 0;
        while k < n
            invariant
                n == self.length(),
                n <= 3,
                k <= n,
                v@ == self.bytes().take(k as int),
            decreases n - k,
        {
            v.push(self.0[k]);
            k = k + 1;
            assert(v@ =~= self.bytes().take(k as int));
        }
        v
    }

    /// If this instruction's operand is an address, then this method returns that address.
    pub fn address(&self) -> (r: Option<u16>)
        requires
            self.decodable(),
        ensures
            r == self.operand_address(),
    {
        match self.decode().1 {
            AddressingMode::Accumulator | AddressingMode::Implied | AddressingMode::Immediate
            | AddressingMode::Relative => None,
            AddressingMode::ZeroPage | AddressingMode::ZeroPageX | AddressingMode::ZeroPageY
            | AddressingMode::ZeroPageIndirect | AddressingMode::IndexedIndirectX
            | AddressingMode::IndirectIndexedY => Some(self.0[1] as u16),
            AddressingMode::Absolute | AddressingMode::AbsoluteX | AddressingMode::AbsoluteY
            | AddressingMode::Indirect | AddressingMode::BuggyIndirect => Some(
                self.0[1] as u16 + 256 * (self.0[2] as u16),
            ),
        }
    }

    /// If this instruction writes to an address, this method returns that address.
    pub fn writes_to(&self) -> (r: Option<u16>)
        requires
            self.decodable(),
        ensures
            r == self.written(),
    {
        match self.decode().0 {
            // Read-modify-write instructions do write to memory (but not if they operate on
            // the accumulator, which has no address).
            Mnemonic::INC | Mnemonic::DEC | Mnemonic::ROR | Mnemonic::ROL | Mnemonic::ASL
            | Mnemonic::LSR | Mnemonic::TSB | Mnemonic::TRB => self.address(),
            // store instructions write to memory
            Mnemonic::STA | Mnemonic::STX | Mnemonic::STY | Mnemonic::STZ => self.address(),
            // ALU operations, flow control, flag setting and clearing, register increments,
            // loads, nop, the stack and register-to-register transfers don't write to memory
            _ => None,
        }
    }

    /// If this instruction reads from an address, this method returns that address.
    pub fn reads_from(&self) -> (r: Option<u16>)
        requires
            self.decodable(),
        ensures
            r == self.read(),
    {
        match self.decode().0 {
            // ALU operations read from memory
            Mnemonic::ADC | Mnemonic::ADCnd | Mnemonic::AND | Mnemonic::BIT | Mnemonic::EOR
            | Mnemonic::CMP | Mnemonic::CPX | Mnemonic::CPY | Mnemonic::ORA | Mnemonic::SBC
            | Mnemonic::SBCnd => self.address(),
            // Read-modify-write instructions do read from memory
            Mnemonic::INC | Mnemonic::DEC | Mnemonic::ROR | Mnemonic::ROL | Mnemonic::ASL
            | Mnemonic::LSR | Mnemonic::TSB | Mnemonic::TRB => self.address(),
            // load instructions read from memory
            Mnemonic::LDA | Mnemonic::LDY | Mnemonic::LDX => self.address(),
            // flow control, flag setting and clearing, register increments, nop, the stack,
            // stores and register-to-register transfers don't read from memory
            _ => None,
        }
    }

    /// Regardless of the `Insn`'s current value, this mutates it such that it now represents a
    /// valid machine instruction for the variant: the opcode is advanced to the first one the
    /// variant knows. Fails, leaving the opcode at 0xff, when there is none.
    pub fn fixup(&mut self) -> (r: IterationResult)
        ensures
            final(self).bytes() == fixed::<V>(old(self).bytes()).0,
            r is Ok <==> fixed::<V>(old(self).bytes()).1,
            r is Ok ==> final(self).known(),
    {
        loop
            invariant
                self.0[1] == old(self).0[1],
                self.0[2] == old(self).0[2],
                old(self).0[0] <= self.0[0],
                first_known::<V>(old(self).0[0] as int) == first_known::<V>(self.0[0] as int),
            decreases 256 - self.0[0],
        {
            let d = V::decode_opcode(self.0[0]);
            if d.is_some() {
                assert(self.bytes() =~= fixed::<V>(old(self).bytes()).0);
                return Ok(());
            }
            if self.0[0] == 0xff {
                assert(first_known::<V>(256) is None);
                assert(self.bytes() =~= fixed::<V>(old(self).bytes()).0);
                return Err(StepError::End);
            }
            self.0[0] = self.0[0] + 1;
        }
    }
}

/// The instruction of the variant `V` with the given bytes.
pub open spec fn with_bytes<V: Variant6502>(b: Seq<u8>) -> Insn<V> {
    Insn([b[0], b[1], b[2]], PhantomData)
}

impl<V: Variant6502> Insn<V> {
    /// The next opcode that the variant knows, with a zero operand, as a proposal to a constraint
    /// solver: nothing if there is none.
    pub open spec fn opcode_bumped(self) -> ConstraintViolation<Self> {
        if self.0[0] == 0xff {
            ConstraintViolation::Violation
        } else {
            let f = fixed::<V>(seq![(self.0[0] + 1) as u8, 0u8, 0u8]);
            if f.1 {
                ConstraintViolation::ReplaceWith(with_bytes(f.0))
            } else {
                ConstraintViolation::Violation
            }
        }
    }

    /// The same instruction with its operand set to the given address, as a proposal to a
    /// constraint solver; when the address does not fit in the operand, the next opcode instead.
    pub open spec fn operand_bumped(self, addr: u16) -> ConstraintViolation<Self> {
        if self.length() < 3 && addr > 0xff {
            self.opcode_bumped()
        } else {
            ConstraintViolation::ReplaceWith(
                with_bytes(seq![self.0[0], (addr % 256) as u8, (addr / 256) as u8]),
            )
        }
    }

    /// Proposes the next opcode that the variant knows, with a zero operand.
    pub fn next_opcode(&self) -> (r: ConstraintViolation<Self>)
        ensures
            r == self.opcode_bumped(),
    {
        if self.0[0] == 0xff {
            return ConstraintViolation::Violation;
        }
        let mut c: Self = Insn(self.0, PhantomData);
        match c.skip_to_next_opcode() {
            Ok(()) => {
                let d: Self = Insn([c.0[0], c.0[1], c.0[2]], PhantomData);
                assert(d.bytes() =~= c.bytes());
                ConstraintViolation::ReplaceWith(d)
            },
            Err(_) => ConstraintViolation::Violation,
        }
    }

    /// Proposes the same instruction with its operand set to the given address (the next opcode,
    /// when the address does not fit in the operand).
    pub fn bump_operand(&self, addr: u16) -> (r: ConstraintViolation<Self>)
        requires
            self.decodable(),
        ensures
            r == self.operand_bumped(addr),
    {
        if self.len() < 3 && addr > 0xff {
            self.next_opcode()
        } else {
            let c: Self = Insn([self.0[0], (addr % 256) as u8, (addr / 256) as u8], PhantomData);
            assert(c.bytes() =~= seq![self.0[0], (addr % 256) as u8, (addr / 256) as u8]);
            assert(c == with_bytes::<V>(c.bytes()));
            ConstraintViolation::ReplaceWith(c)
        }
    }
}

/// The bytes of an instruction read as one big-endian number: the order in which the search
/// steps through instructions.
pub open spec fn rank(b: Seq<u8>) -> int {
    b[0] * 65536 + b[1] * 256 + b[2]
}

/// Fixing up an instruction that the fixup left known changes nothing more: the fixup is
/// idempotent.
pub proof fn lemma_fixup_idempotent<V: Variant6502>(b: Seq<u8>)
    requires
        b.len() == 3,
        fixed::<V>(b).1,
    ensures
        fixed::<V>(fixed::<V>(b).0) == fixed::<V>(b),
{
    lemma_first_known_is_known::<V>(b[0] as int);
    let c = fixed::<V>(b).0;
    assert(c.update(0, c[0]) =~= c);
}

/// The first known opcode at or after `op` is known, and is not before `op`.
pub proof fn lemma_first_known_is_known<V: Variant6502>(op: int)
    ensures
        first_known::<V>(op) matches Some(o) ==> op <= o && V::decoding(o) is Some,
    decreases 256 - op,
{
    if 0 <= op <= 255 && V::decoding(op as u8) is None {
        lemma_first_known_is_known::<V>(op + 1);
    }
}

/// The fixup only moves the opcode forward, and leaves the operand alone.
pub proof fn lemma_fixup_moves_forward<V: Variant6502>(b: Seq<u8>)
    requires
        b.len() == 3,
    ensures
        fixed::<V>(b).0.len() == 3,
        fixed::<V>(b).0[0] >= b[0],
        fixed::<V>(b).0[1] == b[1],
        fixed::<V>(b).0[2] == b[2],
        rank(fixed::<V>(b).0) >= rank(b),
{
    lemma_first_known_is_known::<V>(b[0] as int);
}

/// Incrementing the bytes up to `offset` adds one at that place of the big-endian number, when
/// they are not all 0xff.
pub proof fn lemma_incr_rank(b: Seq<u8>, offset: int)
    requires
        b.len() == 3,
        0 <= offset < 3,
        !all_ff(b, offset),
    ensures
        incr_bytes(b, offset).len() == 3,
        rank(incr_bytes(b, offset)) == rank(b) + if offset == 2 {
            1int
        } else if offset == 1 {
            256int
        } else {
            65536int
        },
{
    reveal_with_fuel(incr_bytes, 4);
    if offset >= 1 && b[offset] == 0xff {
        if offset == 2 && b[1] == 0xff {
            assert(b[0] < 0xff) by {
                if b[0] == 0xff {
                    assert(all_ff(b, offset));
                }
            }
        } else if offset == 1 {
            assert(b[0] < 0xff) by {
                if b[0] == 0xff {
                    assert(all_ff(b, offset));
                }
            }
        }
    }
}

/// Stepping to the next instruction moves strictly forward through the encodings, unless the
/// increment wraps round (the opcode byte and the operand bytes of the instruction all 0xff).
pub proof fn lemma_next_moves_forward<V: Variant6502>(i: Insn<V>)
    requires
        i.decodable(),
        !all_ff(i.bytes(), i.length() - 1),
    ensures
        rank(fixed::<V>(incr_bytes(i.bytes(), i.length() - 1)).0) > rank(i.bytes()),
{
    lemma_incr_rank(i.bytes(), i.length() - 1);
    lemma_fixup_moves_forward::<V>(incr_bytes(i.bytes(), i.length() - 1));
}

/// Which instructions touch memory, and where. The arithmetic and logic instructions (adc, and,
/// bit, eor, cmp, cpx, cpy, ora, sbc), the read-modify-write ones (inc, dec, ror, rol, asl,
/// lsr, tsb, trb) and the loads (lda, ldx, ldy) read their operand's address, and nothing else
/// reads memory; the read-modify-write ones and the stores (sta, stx, sty, stz) write it, and
/// nothing else writes. The operand's address is the byte after the opcode in the zero-page
/// modes, the two bytes after it (low byte first) in the absolute and indirect modes, and there
/// is none in the others.
pub proof fn lemma_memory_accesses<V: Variant6502>(i: Insn<V>)
    ensures
        ({
            let m = i.decoding().0;
            let reads = m == Mnemonic::ADC || m == Mnemonic::ADCnd || m == Mnemonic::AND
                || m == Mnemonic::BIT || m == Mnemonic::EOR || m == Mnemonic::CMP
                || m == Mnemonic::CPX || m == Mnemonic::CPY || m == Mnemonic::ORA
                || m == Mnemonic::SBC || m == Mnemonic::SBCnd || m == Mnemonic::INC
                || m == Mnemonic::DEC || m == Mnemonic::ROR || m == Mnemonic::ROL
                || m == Mnemonic::ASL || m == Mnemonic::LSR || m == Mnemonic::TSB
                || m == Mnemonic::TRB || m == Mnemonic::LDA || m == Mnemonic::LDX
                || m == Mnemonic::LDY;
            let writes = m == Mnemonic::INC || m == Mnemonic::DEC || m == Mnemonic::ROR
                || m == Mnemonic::ROL || m == Mnemonic::ASL || m == Mnemonic::LSR
                || m == Mnemonic::TSB || m == Mnemonic::TRB || m == Mnemonic::STA
                || m == Mnemonic::STX || m == Mnemonic::STY || m == Mnemonic::STZ;
            &&& reads ==> i.read() == i.operand_address()
            &&& !reads ==> i.read() is None
            &&& writes ==> i.written() == i.operand_address()
            &&& !writes ==> i.written() is None
        }),
        ({
            let mode = i.decoding().1;
            &&& (mode == AddressingMode::ZeroPage || mode == AddressingMode::ZeroPageX
                || mode == AddressingMode::ZeroPageY || mode == AddressingMode::ZeroPageIndirect
                || mode == AddressingMode::IndexedIndirectX
                || mode == AddressingMode::IndirectIndexedY) ==> i.operand_address() == Some(
                i.0[1] as u16,
            )
            &&& (mode == AddressingMode::Absolute || mode == AddressingMode::AbsoluteX
                || mode == AddressingMode::AbsoluteY || mode == AddressingMode::Indirect
                || mode == AddressingMode::BuggyIndirect) ==> i.operand_address() == Some(
                (i.0[1] + 256 * i.0[2]) as u16,
            )
            &&& (mode == AddressingMode::Accumulator || mode == AddressingMode::Implied
                || mode == AddressingMode::Immediate || mode == AddressingMode::Relative)
                ==> i.operand_address() is None
        }),
{
}

} // verus!
