use strop::data::Parameters;
use strop::functions::{count_ones_u8, id, parity, popcount};
use strop::hamming::{count_ones_u32, Scalar};
use strop::i80::{parse_i8080, parse_sm83, Instruction, InstructionData};
use strop::instruction::insn6502::{random_codepoint, Instruction6502, Operand};
use strop::text::{digit_char, push_dec, push_dec_signed, push_hex};
use strop::{Fixup, FixupReason};

#[test]
fn target_functions() {
    assert_eq!(count_ones_u8(0xb5), 5);
    assert_eq!(id(vec![1, -2, 3]), vec![1, -2, 3]);
    assert_eq!(parity(vec![7]), vec![1]);
    assert_eq!(parity(vec![3, 1]), vec![0]);
    assert_eq!(popcount(vec![-1]), vec![8]);
    assert_eq!(popcount(vec![0x11]), vec![2]);
}

#[test]
fn hamming_distances() {
    assert_eq!(count_ones_u32(0xffff_ffff), 32);
    assert_eq!(0x00ffu16.hamming(0x0f0f), 8);
    assert_eq!((-1i32).hamming(0), 32);
    assert_eq!(5u32.hamming(5), 0);
    assert_eq!(5u32.hamming(6), 6u32.hamming(5));
    assert_eq!(40000u16.as_i32(), 40000);
    assert_eq!(0xffff_ffffu32.as_i32(), -1);
    assert_eq!((-7i32).as_i32(), -7);
}

#[test]
fn representative_values() {
    assert_eq!(bool::vals(), vec![true, false]);
    let v = u8::vals();
    assert_eq!(v.len(), 25);
    assert_eq!(&v[..7], &[0, 1, 0, 255, 2, 1, 254]);
    assert_eq!(v[22], 128);
    let v = u16::vals();
    assert_eq!(v.len(), 65);
    assert_eq!(&v[..5], &[0, 1, 0, 65535, 0]);
    assert_eq!(v[61], 32768);
    let v = i16::vals();
    assert_eq!(v.len(), 81);
    assert_eq!(&v[..6], &[0, 1, 0, 32767, -32768, 0]);
    assert_eq!(v[76], i16::MIN);
    assert_eq!(v[80], -15);
    let p = <(bool, bool)>::vals();
    assert_eq!(p, vec![(true, true), (true, false), (false, true), (false, false)]);
    let t = <(bool, bool, u8)>::vals();
    assert_eq!(t.len(), 100);
    assert_eq!(t[0], (true, true, 0));
    assert_eq!(t[26], (true, false, 1));
    assert_eq!(t[99], (false, false, 248));
}

#[test]
fn i80_parsing() {
    assert_eq!(parse_i8080(&[0x00]), InstructionData { insn: Instruction::Nop, len: 1 });
    assert_eq!(parse_sm83(&[0x08, 0x12]), InstructionData { insn: Instruction::Exaf, len: 1 });
}

#[test]
fn instruction6502_encoding() {
    let i = Instruction6502 { opcode: 0xad, operand: Operand::Absolute(0x1234) };
    assert_eq!(i.length(), 3);
    assert_eq!(i.as_bytes(), vec![0xad, 0x34, 0x12]);
    let i = Instruction6502 { opcode: 0xa9, operand: Operand::Immediate(7) };
    assert_eq!(i.length(), 2);
    assert_eq!(i.as_bytes(), vec![0xa9, 7]);
    let i = Instruction6502 { opcode: 0x0a, operand: Operand::Accumulator };
    assert_eq!(i.as_bytes(), vec![0x0a]);
    for _ in 0..100 {
        let c = random_codepoint();
        assert!(c != 0x02 && c != 0xff);
    }
}

#[test]
fn text_rendering() {
    let mut s = String::new();
    push_hex(&mut s, 0xab, 4);
    push_str_via_dec(&mut s);
    assert_eq!(s, "00ab|0042|-17");
    assert_eq!(digit_char(11), 'b');
}

fn push_str_via_dec(s: &mut String) {
    s.push('|');
    push_dec(s, 42, 4);
    s.push('|');
    push_dec_signed(s, -17);
}

#[test]
fn fixup_offsets() {
    let f = Fixup { offset: 1, reason: FixupReason::Uninitialized };
    assert_eq!(f.set_offset(7), Fixup { offset: 7, reason: FixupReason::Uninitialized });
}

#[derive(Clone, Debug, PartialEq)]
struct Nop;

impl strop::instruction::Instruction for Nop {
    fn length(&self) -> usize {
        1
    }
    fn new() -> Self {
        Nop
    }
    fn as_bytes(&self) -> Vec<u8> {
        vec![0xea]
    }
}

struct Refuse;

impl strop::generate::Constraint<Nop> for Refuse {
    fn spec_allows(&self, _insn: &Nop) -> bool {
        false
    }
    fn allows(&self, _insn: &Nop) -> bool {
        false
    }
}

#[test]
fn new_instruction_without_constraints_proposes_one() {
    let c: strop::generate::Constraints<Nop, Refuse> = strop::generate::Constraints::none();
    assert_eq!(c.new_instruction(), Some(Nop));
    let c: strop::generate::Constraints<Nop, Refuse> = strop::generate::Constraints::new(vec![Refuse]);
    assert_eq!(c.new_instruction(), None);
}

#[derive(Clone, Debug, PartialEq)]
struct Byte(u8);

impl strop::instruction::Instruction for Byte {
    fn length(&self) -> usize {
        1
    }
    fn new() -> Self {
        Byte(1)
    }
    fn as_bytes(&self) -> Vec<u8> {
        vec![self.0]
    }
}

struct Odd;

impl strop::generate::Constraint<Byte> for Odd {
    fn spec_allows(&self, insn: &Byte) -> bool {
        insn.0 % 2 == 1
    }
    fn allows(&self, insn: &Byte) -> bool {
        insn.0 % 2 == 1
    }
}

#[test]
fn first_allowed_picks_the_first_admitted_candidate() {
    let c: strop::generate::Constraints<Byte, Odd> = strop::generate::Constraints::new(vec![Odd]);
    assert_eq!(c.first_allowed(&[Byte(2), Byte(4), Byte(7), Byte(9)]), Some(2));
    assert_eq!(c.first_allowed(&[Byte(2), Byte(4)]), None);
    assert_eq!(c.first_allowed(&[]), None);
    assert_eq!(c.new_instruction(), Some(Byte(1)));
}

struct Word(&'static str);

impl strop::disassemble::Disassemble for Word {
    fn spec_dasm(&self) -> vstd::prelude::Seq<char> {
        panic!("a specification only")
    }
    fn dasm(&self) -> String {
        self.0.to_string()
    }
    fn debug(&self) -> String {
        format!("{:?}", self.0)
    }
}

#[test]
fn disassembly_lists_each_instruction_under_the_name() {
    let code = [Word("lda #$05"), Word("rts")];
    let d = strop::disassemble::Disassembly::new(&code, "five");
    assert_eq!(d.to_string(), "five:\n    lda #$05\n    rts\n");
    assert_eq!(strop::disassemble::Disassembly::<Word>::new(&[], "empty").to_string(), "empty:\n");
}
