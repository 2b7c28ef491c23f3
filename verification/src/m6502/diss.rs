//! The disassembler for 6502 instructions.
use crate::m6502::isa::{AddressingMode, Insn, Mnemonic, Variant6502};
use crate::text::{dec_signed, hex2, hex_bytes, hex_bytes_string, push_dec_signed, push_hex, push_str};
use vstd::prelude::*;

verus! {

/// The assembler's name for an instruction.
pub open spec fn mnemonic_text(m: Mnemonic) -> Seq<char> {
    match m {
        Mnemonic::ADC => "adc"@,
        Mnemonic::ADCnd => "adc"@,
        Mnemonic::AND => "and"@,
        Mnemonic::ASL => "asl"@,
        Mnemonic::BCC => "bcc"@,
        Mnemonic::BCS => "bcs"@,
        Mnemonic::BEQ => "beq"@,
        Mnemonic::BIT => "bit"@,
        Mnemonic::BMI => "bmi"@,
        Mnemonic::BNE => "bne"@,
        Mnemonic::BPL => "bpl"@,
        Mnemonic::BRA => "bra"@,
        Mnemonic::BRK => "brk"@,
        Mnemonic::BRKcld => "brk"@,
        Mnemonic::BVC => "bvc"@,
        Mnemonic::BVS => "bvs"@,
        Mnemonic::CLC => "clc"@,
        Mnemonic::CLD => "cld"@,
        Mnemonic::CLI => "cli"@,
        Mnemonic::CLV => "clv"@,
        Mnemonic::CMP => "cmp"@,
        Mnemonic::CPX => "cpx"@,
        Mnemonic::CPY => "cpy"@,
        Mnemonic::DEC => "dec"@,
        Mnemonic::DEX => "dex"@,
        Mnemonic::DEY => "dey"@,
        Mnemonic::EOR => "eor"@,
        Mnemonic::INC => "inc"@,
        Mnemonic::INX => "inx"@,
        Mnemonic::INY => "iny"@,
        Mnemonic::JMP => "jmp"@,
        Mnemonic::JSR => "jsr"@,
        Mnemonic::LDA => "lda"@,
        Mnemonic::LDX => "ldx"@,
        Mnemonic::LDY => "ldy"@,
        Mnemonic::LSR => "lsr"@,
        Mnemonic::NOP => "nop"@,
        Mnemonic::ORA => "ora"@,
        Mnemonic::PHA => "pha"@,
        Mnemonic::PHX => "phx"@,
        Mnemonic::PHY => "phy"@,
        Mnemonic::PHP => "php"@,
        Mnemonic::PLA => "pla"@,
        Mnemonic::PLX => "plx"@,
        Mnemonic::PLY => "ply"@,
        Mnemonic::PLP => "plp"@,
        Mnemonic::ROL => "rol"@,
        Mnemonic::ROR => "ror"@,
        Mnemonic::RTI => "rti"@,
        Mnemonic::RTS => "rts"@,
        Mnemonic::SBC => "sbc"@,
        Mnemonic::SBCnd => "sbc"@,
        Mnemonic::SEC => "sec"@,
        Mnemonic::SED => "sed"@,
        Mnemonic::SEI => "sei"@,
        Mnemonic::STA => "sta"@,
        Mnemonic::STX => "stx"@,
        Mnemonic::STY => "sty"@,
        Mnemonic::STZ => "stz"@,
        Mnemonic::TAX => "tax"@,
        Mnemonic::TAY => "tay"@,
        Mnemonic::TRB => "trb"@,
        Mnemonic::TSB => "tsb"@,
        Mnemonic::TSX => "tsx"@,
        Mnemonic::TXA => "txa"@,
        Mnemonic::TXS => "txs"@,
        Mnemonic::TYA => "tya"@,
    }
}


/// The operand as the disassembler writes it, after the mnemonic. An absolute address is written
/// as its two bytes in the order in which they are stored.
pub open spec fn operand_text(mode: AddressingMode, b: Seq<u8>) -> Seq<char> {
    match mode {
        AddressingMode::Accumulator => " a"@,
        AddressingMode::Implied => Seq::empty(),
        AddressingMode::Immediate => " #$"@ + hex2(b[1]),
        AddressingMode::ZeroPage => " $"@ + hex2(b[1]),
        AddressingMode::ZeroPageX => " $"@ + hex2(b[1]) + ", x"@,
        AddressingMode::ZeroPageY => " $"@ + hex2(b[1]) + ", y"@,
        AddressingMode::Relative => " "@ + dec_signed((b[1] as i8) as int),
        AddressingMode::Absolute => " $"@ + hex2(b[1]) + hex2(b[2]),
        AddressingMode::AbsoluteX => " $"@ + hex2(b[1]) + hex2(b[2]) + ", x"@,
        AddressingMode::AbsoluteY => " $"@ + hex2(b[1]) + hex2(b[2]) + ", y"@,
        AddressingMode::Indirect | AddressingMode::BuggyIndirect => " ($"@ + hex2(b[1]) + hex2(
            b[2],
        ) + ")"@,
        AddressingMode::ZeroPageIndirect => " ($"@ + hex2(b[1]) + ")"@,
        AddressingMode::IndexedIndirectX => " ($"@ + hex2(b[1]) + ",x)"@,
        AddressingMode::IndirectIndexedY => " ($"@ + hex2(b[1]) + "),y"@,
    }
}

fn push_mnemonic(s: &mut String, m: Mnemonic)
    ensures
        final(s)@ == old(s)@ + mnemonic_text(m),
{
    match m {
        Mnemonic::ADC => push_str(s, "adc"),
        Mnemonic::ADCnd => push_str(s, "adc"),
        Mnemonic::AND => push_str(s, "and"),
        Mnemonic::ASL => push_str(s, "asl"),
        Mnemonic::BCC => push_str(s, "bcc"),
        Mnemonic::BCS => push_str(s, "bcs"),
        Mnemonic::BEQ => push_str(s, "beq"),
        Mnemonic::BIT => push_str(s, "bit"),
        Mnemonic::BMI => push_str(s, "bmi"),
        Mnemonic::BNE => push_str(s, "bne"),
        Mnemonic::BPL => push_str(s, "bpl"),
        Mnemonic::BRA => push_str(s, "bra"),
        Mnemonic::BRK => push_str(s, "brk"),
        Mnemonic::BRKcld => push_str(s, "brk"),
        Mnemonic::BVC => push_str(s, "bvc"),
        Mnemonic::BVS => push_str(s, "bvs"),
        Mnemonic::CLC => push_str(s, "clc"),
        Mnemonic::CLD => push_str(s, "cld"),
        Mnemonic::CLI => push_str(s, "cli"),
        Mnemonic::CLV => push_str(s, "clv"),
        Mnemonic::CMP => push_str(s, "cmp"),
        Mnemonic::CPX => push_str(s, "cpx"),
        Mnemonic::CPY => push_str(s, "cpy"),
        Mnemonic::DEC => push_str(s, "dec"),
        Mnemonic::DEX => push_str(s, "dex"),
        Mnemonic::DEY => push_str(s, "dey"),
        Mnemonic::EOR => push_str(s, "eor"),
        Mnemonic::INC => push_str(s, "inc"),
        Mnemonic::INX => push_str(s, "inx"),
        Mnemonic::INY => push_str(s, "iny"),
        Mnemonic::JMP => push_str(s, "jmp"),
        Mnemonic::JSR => push_str(s, "jsr"),
        Mnemonic::LDA => push_str(s, "lda"),
        Mnemonic::LDX => push_str(s, "ldx"),
        Mnemonic::LDY => push_str(s, "ldy"),
        Mnemonic::LSR => push_str(s, "lsr"),
        Mnemonic::NOP => push_str(s, "nop"),
        Mnemonic::ORA => push_str(s, "ora"),
        Mnemonic::PHA => push_str(s, "pha"),
        Mnemonic::PHX => push_str(s, "phx"),
        Mnemonic::PHY => push_str(s, "phy"),
        Mnemonic::PHP => push_str(s, "php"),
        Mnemonic::PLA => push_str(s, "pla"),
        Mnemonic::PLX => push_str(s, "plx"),
        Mnemonic::PLY => push_str(s, "ply"),
        Mnemonic::PLP => push_str(s, "plp"),
        Mnemonic::ROL => push_str(s, "rol"),
        Mnemonic::ROR => push_str(s, "ror"),
        Mnemonic::RTI => push_str(s, "rti"),
        Mnemonic::RTS => push_str(s, "rts"),
        Mnemonic::SBC => push_str(s, "sbc"),
        Mnemonic::SBCnd => push_str(s, "sbc"),
        Mnemonic::SEC => push_str(s, "sec"),
        Mnemonic::SED => push_str(s, "sed"),
        Mnemonic::SEI => push_str(s, "sei"),
        Mnemonic::STA => push_str(s, "sta"),
        Mnemonic::STX => push_str(s, "stx"),
        Mnemonic::STY => push_str(s, "sty"),
        Mnemonic::STZ => push_str(s, "stz"),
        Mnemonic::TAX => push_str(s, "tax"),
        Mnemonic::TAY => push_str(s, "tay"),
        Mnemonic::TRB => push_str(s, "trb"),
        Mnemonic::TSB => push_str(s, "tsb"),
        Mnemonic::TSX => push_str(s, "tsx"),
        Mnemonic::TXA => push_str(s, "txa"),
        Mnemonic::TXS => push_str(s, "txs"),
        Mnemonic::TYA => push_str(s, "tya"),
    }
}

impl<V: Variant6502> Insn<V> {
    /// The text of the instruction as the disassembler writes it.
    pub open spec fn dasm(self) -> Seq<char> {
        mnemonic_text(self.decoding().0) + operand_text(self.decoding().1, self.bytes())
    }

    /// Disassembles the instruction.
    pub fn to_string(&self) -> (r: String)
        requires
            self.decodable(),
        ensures
            r@ == self.dasm(),
    {
        let d = self.decode();
        let mut s = String::new();
        push_mnemonic(&mut s, d.0);
        let b1 = self.0[1] as u32;
        let b2 = self.0[2] as u32;
        match d.1 {
            AddressingMode::Accumulator => push_str(&mut s, " a"),
            AddressingMode::Implied => {},
            AddressingMode::Immediate => {
                push_str(&mut s, " #$");
                push_hex(&mut s, b1, 2);
            },
            AddressingMode::ZeroPage => {
                push_str(&mut s, " $");
                push_hex(&mut s, b1, 2);
            },
            AddressingMode::ZeroPageX => {
                push_str(&mut s, " $");
                push_hex(&mut s, b1, 2);
                push_str(&mut s, ", x");
            },
            AddressingMode::ZeroPageY => {
                push_str(&mut s, " $");
                push_hex(&mut s, b1, 2);
                push_str(&mut s, ", y");
            },
            AddressingMode::Relative => {
                push_str(&mut s, " ");
                push_dec_signed(&mut s, (self.0[1] as i8) as i32);
            },
            AddressingMode::Absolute => {
                push_str(&mut s, " $");
                push_hex(&mut s, b1, 2);
                push_hex(&mut s, b2, 2);
            },
            AddressingMode::AbsoluteX => {
                push_str(&mut s, " $");
                push_hex(&mut s, b1, 2);
                push_hex(&mut s, b2, 2);
                push_str(&mut s, ", x");
            },
            AddressingMode::AbsoluteY => {
                push_str(&mut s, " $");
                push_hex(&mut s, b1, 2);
                push_hex(&mut s, b2, 2);
                push_str(&mut s, ", y");
            },
            AddressingMode::Indirect | AddressingMode::BuggyIndirect => {
                push_str(&mut s, " ($");
                push_hex(&mut s, b1, 2);
                push_hex(&mut s, b2, 2);
                push_str(&mut s, ")");
            },
            AddressingMode::ZeroPageIndirect => {
                push_str(&mut s, " ($");
                push_hex(&mut s, b1, 2);
                push_str(&mut s, ")");
            },
            AddressingMode::IndexedIndirectX => {
                push_str(&mut s, " ($");
                push_hex(&mut s, b1, 2);
                push_str(&mut s, ",x)");
            },
            AddressingMode::IndirectIndexedY => {
                push_str(&mut s, " ($");
                push_hex(&mut s, b1, 2);
                push_str(&mut s, "),y");
            },
        }
        assert(s@ =~= self.dasm());
        s
    }

    /// The machine code of the instruction in hexadecimal, a byte at a time, separated by spaces.
    pub fn debug_string(&self) -> (r: String)
        requires
            self.decodable(),
        ensures
            r@ == hex_bytes(self.bytes().take(self.length() as int)),
    {
        hex_bytes_string(&self.encode())
    }
}

} // verus!
