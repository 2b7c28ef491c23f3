//! The `stm8` backend, for generating code sequences for the 8-bit microcontroller family by
//! STMicroelectronics.
use crate::machine::Strop;
use crate::machine::kr580vm1::{mem_at, pair_value};
use crate::random::{random_below, random_u16, random_u8};
use crate::text::{dec, dec_signed, push_dec, push_str};
use std::collections::HashMap;
use vstd::prelude::*;
use vstd::string::*;

verus! {

/// The byte that `b` is with bit `k` flipped.
pub open spec fn flip_bit_u8(b: u8, k: u32) -> u8 {
    b ^ ((1u8 << k) as u8)
}

/// The word that `w` is with bit `k` flipped.
pub open spec fn flip_bit_u16(w: u16, k: u32) -> u16 {
    w ^ ((1u16 << k) as u16)
}

impl Strop for u8 {
    open spec fn can_mutate(&self) -> bool {
        true
    }

    fn random() -> u8 {
        random_u8()
    }

    /// Increments, decrements (both wrapping) or flips one bit of the byte.
    fn mutate(&mut self)
        ensures
            *final(self) == (*old(self)).wrapping_add(1) || *final(self) == (*old(self)).wrapping_sub(1)
                || exists|k: u32| k < 8 && *final(self) == flip_bit_u8(*old(self), k),
    {
        let choice = random_below(3);
        if choice == 0 {
            *self = self.wrapping_add(1);
        } else if choice == 1 {
            *self = self.wrapping_sub(1);
        } else {
            let k = random_below(8) as u32;
            let bit_select: u8 = 1u8 << k;
            *self = *self ^ bit_select;
            assert(*self == flip_bit_u8(*old(self), k));
        }
    }
}

impl Strop for u16 {
    /// Incrementing 0xffff or decrementing 0 overflows, and either may be chosen.
    open spec fn can_mutate(&self) -> bool {
        0 < *self < 0xffff
    }

    fn random() -> u16 {
        random_u16()
    }

    /// Increments, decrements or flips one bit of the word.
    fn mutate(&mut self)
        ensures
            *final(self) == *old(self) + 1 || *final(self) == *old(self) - 1
                || exists|k: u32| k < 16 && *final(self) == flip_bit_u16(*old(self), k),
    {
        let choice = random_below(3);
        if choice == 0 {
            *self = *self + 1;
        } else if choice == 1 {
            *self = *self - 1;
        } else {
            let k = random_below(16) as u32;
            let bit_select: u16 = 1u16 << k;
            *self = *self ^ bit_select;
            assert(*self == flip_bit_u16(*old(self), k));
        }
    }
}


broadcast use vstd::std_specs::hash::group_hash_axioms;

/// An 8-bit operand: a constant or a byte of memory.
#[derive(Clone, Copy, Debug, PartialEq, Eq, Structural)]
pub enum Operand8 {
    Imm8(u8),
    Abs(u16),
}

/// A 16-bit operand: a constant or a word of memory.
#[derive(Clone, Copy, Debug, PartialEq, Eq, Structural)]
pub enum Operand16 {
    Imm(u16),
    Abs(u16),
}

/// One of the two 16-bit index registers.
#[derive(Clone, Copy, Debug, PartialEq, Eq, Structural)]
pub enum Register16 {
    X,
    Y,
}

impl Register16 {
    /// The register's name as the disassembler writes it.
    pub open spec fn name(self) -> Seq<char> {
        match self {
            Register16::X => "x"@,
            Register16::Y => "y"@,
        }
    }

    /// Appends the register's name to `s`.
    pub fn push_name(&self, s: &mut String)
        ensures
            final(s)@ == old(s)@ + self.name(),
    {
        match self {
            Register16::X => push_str(s, "x"),
            Register16::Y => push_str(s, "y"),
        }
    }
}

impl Strop for Operand8 {
    open spec fn can_mutate(&self) -> bool {
        true
    }

    /// A random constant or a random address, chosen at random.
    fn random() -> Operand8 {
        if random_below(2) == 0 {
            Operand8::Imm8(random_u8())
        } else {
            Operand8::Abs(random_u16())
        }
    }

    /// Mutates a constant; leaves an address alone.
    fn mutate(&mut self)
        ensures
            match *old(self) {
                Operand8::Imm8(v) => *final(self) matches Operand8::Imm8(w) && crate::machine::kr580vm1::byte_mutation(v, w),
                Operand8::Abs(_) => *final(self) == *old(self),
            },
    {
        let e = match *self {
            Operand8::Imm8(v) => {
                let mut e = v;
                e.mutate();
                Operand8::Imm8(e)
            },
            Operand8::Abs(addr) => Operand8::Abs(addr),
        };
        *self = e;
    }
}

impl Strop for Operand16 {
    /// Mutating a constant of 0 or 0xffff may overflow.
    open spec fn can_mutate(&self) -> bool {
        match *self {
            Operand16::Imm(v) => 0 < v < 0xffff,
            Operand16::Abs(_) => true,
        }
    }

    /// A random constant or a random address, chosen at random.
    fn random() -> Operand16 {
        if random_below(2) == 0 {
            Operand16::Imm(random_u16())
        } else {
            Operand16::Abs(random_u16())
        }
    }

    /// Mutates a constant; leaves an address alone.
    fn mutate(&mut self)
        ensures
            match *old(self) {
                Operand16::Imm(v) => *final(self) matches Operand16::Imm(w) && crate::machine::kr580vm1::word_mutation(v, w),
                Operand16::Abs(_) => *final(self) == *old(self),
            },
    {
        let e = match *self {
            Operand16::Imm(v) => {
                let mut e = v;
                e.mutate();
                Operand16::Imm(e)
            },
            Operand16::Abs(addr) => Operand16::Abs(addr),
        };
        *self = e;
    }
}

impl Operand16 {
    /// The operand's value: the constant, or the little-endian word at the address (unknown
    /// unless both bytes are known).
    pub open spec fn spec_get_u16(self, s: Stm8View) -> Option<u16> {
        match self {
            Operand16::Imm(x) => Some(x),
            Operand16::Abs(addr) => pair_value(
                mem_at(s.m, Some((addr + 1) as u16)),
                mem_at(s.m, Some(addr)),
            ),
        }
    }

    /// Reading a word needs both of its bytes to have been written, and the second address to
    /// fit in 16 bits.
    pub open spec fn can_read(self, s: Stm8View) -> bool {
        match self {
            Operand16::Imm(_) => true,
            Operand16::Abs(addr) => addr < 0xffff && s.m.contains_key(addr) && s.m.contains_key(
                (addr + 1) as u16,
            ),
        }
    }

    fn get_u16(self, s: &Stm8) -> (r: Option<u16>)
        requires
            self.can_read(s@),
        ensures
            r == self.spec_get_u16(s@),
    {
        match self {
            Operand16::Imm(x) => Some(x),
            Operand16::Abs(addr) => {
                let low = s.read_mem(Some(addr));
                let high = s.read_mem(Some(addr + 1));
                match (low, high) {
                    (Some(l), Some(h)) => Some(h as u16 * 256 + l as u16),
                    _ => None,
                }
            },
        }
    }
}

impl Operand8 {
    /// The operand's value: the constant, or the byte at the address.
    pub open spec fn spec_get_u8(self, s: Stm8View) -> Option<u8> {
        match self {
            Operand8::Imm8(x) => Some(x),
            Operand8::Abs(addr) => mem_at(s.m, Some(addr)),
        }
    }

    /// Reading a byte needs it to have been written.
    pub open spec fn can_read(self, s: Stm8View) -> bool {
        match self {
            Operand8::Imm8(_) => true,
            Operand8::Abs(addr) => s.m.contains_key(addr),
        }
    }

    fn get_u8(self, s: &Stm8) -> (r: Option<u8>)
        requires
            self.can_read(s@),
        ensures
            r == self.spec_get_u8(s@),
    {
        match self {
            Operand8::Imm8(x) => Some(x),
            Operand8::Abs(addr) => s.read_mem(Some(addr)),
        }
    }

    /// The operand as its debugging form writes it.
    pub open spec fn debug_text(self) -> Seq<char> {
        match self {
            Operand8::Imm8(x) => "Imm8("@ + dec(x as nat) + ")"@,
            Operand8::Abs(a) => "Abs("@ + dec(a as nat) + ")"@,
        }
    }

    /// Appends the operand's debugging form to `s`.
    pub fn push_debug(&self, s: &mut String)
        ensures
            final(s)@ == old(s)@ + self.debug_text(),
    {
        let ghost before = s@;
        match *self {
            Operand8::Imm8(x) => {
                push_str(s, "Imm8(");
                push_dec(s, x as u32, 1);
                push_str(s, ")");
            },
            Operand8::Abs(a) => {
                push_str(s, "Abs(");
                push_dec(s, a as u32, 1);
                push_str(s, ")");
            },
        }
        assert(s@ =~= before + self.debug_text());
    }
}

/// A 16-bit index register, each byte of which may be unknown.
#[derive(Debug)]
pub struct IndexRegister {
    high: Option<u8>,
    low: Option<u8>,
}

impl IndexRegister {
    /// The high byte.
    pub closed spec fn spec_high(&self) -> Option<u8> {
        self.high
    }

    /// The low byte.
    pub closed spec fn spec_low(&self) -> Option<u8> {
        self.low
    }

    /// An index register of unknown value.
    pub fn unknown() -> (r: Self)
        ensures
            r.spec_high() is None && r.spec_low() is None,
    {
        IndexRegister { high: None, low: None }
    }

    /// Sets the register: the high byte of `val` to the high byte, the low byte to the low one.
    fn set_u16(&mut self, val: Option<u16>)
        ensures
            final(self).spec_high() == (match val {
                Some(v) => Some((v / 256) as u8),
                None => None,
            }),
            final(self).spec_low() == (match val {
                Some(v) => Some((v % 256) as u8),
                None => None,
            }),
    {
        match val {
            Some(v) => {
                self.high = Some((v / 256) as u8);
                self.low = Some((v % 256) as u8);
            },
            None => {
                self.high = None;
                self.low = None;
            },
        }
    }

    /// Reads the register: the high byte above the low one.
    fn get_u16(&self) -> (r: Option<u16>)
        ensures
            r == pair_value(self.spec_high(), self.spec_low()),
    {
        match (self.high, self.low) {
            (Some(h), Some(l)) => Some(h as u16 * 256 + l as u16),
            _ => None,
        }
    }
}

/// The state of the STM8 as the contracts see it.
pub ghost struct Stm8View {
    pub a: Option<u8>,
    pub x: Option<u16>,
    pub y: Option<u16>,
    pub m: Map<u16, Option<u8>>,
    pub carry: Option<bool>,
    pub halfcarry: Option<bool>,
    pub overflow: Option<bool>,
    pub zero: Option<bool>,
    pub sign: Option<bool>,
}

/// The state of an STM8: registers, memory and flags, each possibly unknown.
#[derive(Debug)]
pub struct Stm8 {
    a: Option<u8>,
    x: IndexRegister,
    y: IndexRegister,
    m: HashMap<u16, Option<u8>>,
    carry: Option<bool>,
    halfcarry: Option<bool>,
    overflow: Option<bool>,
    zero: Option<bool>,
    sign: Option<bool>,
}

impl View for Stm8 {
    type V = Stm8View;

    closed spec fn view(&self) -> Stm8View {
        Stm8View {
            a: self.a,
            x: pair_value(self.x.high, self.x.low),
            y: pair_value(self.y.high, self.y.low),
            m: self.m@,
            carry: self.carry,
            halfcarry: self.halfcarry,
            overflow: self.overflow,
            zero: self.zero,
            sign: self.sign,
        }
    }
}

impl Default for Stm8 {
    /// A state of which nothing is known.
    fn default() -> (r: Self)
        ensures
            r@.a is None && r@.x is None && r@.y is None,
            r@.m == Map::<u16, Option<u8>>::empty(),
            r@.carry is None && r@.halfcarry is None && r@.overflow is None,
            r@.zero is None && r@.sign is None,
    {
        Stm8 {
            a: None,
            x: IndexRegister::unknown(),
            y: IndexRegister::unknown(),
            m: HashMap::new(),
            carry: None,
            halfcarry: None,
            overflow: None,
            zero: None,
            sign: None,
        }
    }
}

impl Stm8 {
    fn get_register16(&self, select: Register16) -> (r: Option<u16>)
        ensures
            r == (match select {
                Register16::X => self@.x,
                Register16::Y => self@.y,
            }),
    {
        match select {
            Register16::X => self.x.get_u16(),
            Register16::Y => self.y.get_u16(),
        }
    }

    fn set_register16(&mut self, select: Register16, val: Option<u16>)
        ensures
            final(self)@ == (match select {
                Register16::X => Stm8View { x: val, ..old(self)@ },
                Register16::Y => Stm8View { y: val, ..old(self)@ },
            }),
    {
        match select {
            Register16::X => self.x.set_u16(val),
            Register16::Y => self.y.set_u16(val),
        }
        proof {
            if let Some(v) = val {
                assert(((v / 256) as u8) as u16 * 256 + ((v % 256) as u8) as u16 == v);
            }
        }
    }

    /// Reads memory; the byte must have been written.
    fn read_mem(&self, addr: Option<u16>) -> (r: Option<u8>)
        requires
            addr matches Some(a) ==> self@.m.contains_key(a),
        ensures
            r == mem_at(self@.m, addr),
    {
        if let Some(addr) = addr {
            match self.m.get(&addr) {
                Some(v) => *v,
                None => None,
            }
        } else {
            None
        }
    }
}

/// The operands of an STM8 instruction.
#[derive(Clone, Copy, Debug, PartialEq, Eq, Structural)]
pub enum Stm8Operands {
    Alu8(Operand8),
    Alu16(Register16, Operand16),
}

impl Stm8Operands {
    fn get_alu8(self) -> (r: Operand8)
        requires
            self is Alu8,
        ensures
            r == self->Alu8_0,
    {
        match self {
            Stm8Operands::Alu8(operand) => operand,
            Stm8Operands::Alu16(_, _) => Operand8::Imm8(0),
        }
    }

    fn get_alu16(self) -> (r: (Register16, Operand16))
        requires
            self is Alu16,
        ensures
            r == (self->Alu16_0, self->Alu16_1),
    {
        match self {
            Stm8Operands::Alu16(r, operand) => (r, operand),
            Stm8Operands::Alu8(_) => (Register16::X, Operand16::Imm(0)),
        }
    }
}

/// Whether `new` is what a mutation of the operands `old` can give: a constant mutated as
/// `byte_mutation` or `word_mutation` say, an address and the register left alone.
pub open spec fn operands_mutation(old: Stm8Operands, new: Stm8Operands) -> bool {
    match old {
        Stm8Operands::Alu8(v) => new matches Stm8Operands::Alu8(w) && (match v {
            Operand8::Imm8(x) => w matches Operand8::Imm8(y) && crate::machine::kr580vm1::byte_mutation(x, y),
            Operand8::Abs(_) => w == v,
        }),
        Stm8Operands::Alu16(r, v) => new matches Stm8Operands::Alu16(r2, w) && r2 == r && (match v {
            Operand16::Imm(x) => w matches Operand16::Imm(y) && crate::machine::kr580vm1::word_mutation(x, y),
            Operand16::Abs(_) => w == v,
        }),
    }
}

impl Strop for Stm8Operands {
    open spec fn can_mutate(&self) -> bool {
        match *self {
            Stm8Operands::Alu8(v) => v.can_mutate(),
            Stm8Operands::Alu16(_, v) => v.can_mutate(),
        }
    }

    /// A random 8-bit operand.
    fn random() -> (r: Self)
        ensures
            r is Alu8,
    {
        Stm8Operands::Alu8(Operand8::random())
    }

    /// Mutates the operand.
    fn mutate(&mut self)
        ensures
            operands_mutation(*old(self), *final(self)),
    {
        match self {
            Stm8Operands::Alu8(v) => v.mutate(),
            Stm8Operands::Alu16(_, v) => v.mutate(),
        }
    }
}

/// What an STM8 instruction does.
#[derive(Clone, Copy, Debug, PartialEq, Eq, Structural)]
pub enum Stm8Op {
    /// Add with carry into the accumulator
    Adc,
    /// Add into the accumulator
    Add,
}

/// Represents a STM8 Instruction
#[derive(Clone, Copy, Debug, PartialEq, Eq, Structural)]
pub struct Stm8Instruction {
    pub op: Stm8Op,
    pub operand: Stm8Operands,
}

/// The mnemonic of an operation.
pub open spec fn mnemonic(op: Stm8Op) -> Seq<char> {
    match op {
        Stm8Op::Adc => "adc"@,
        Stm8Op::Add => "add"@,
    }
}

/// The flags and result of an 8-bit addition of `a`, `m` and a carry in, as signed bytes: the
/// carry and half-carry come from bits 7 and 3 of `(a & m) | (m & !r) | (!r & a)`, the
/// overflow from bits 6 and 7 of `(a & m) | (m & r) | (r & a)` differing.
pub open spec fn alu_add(
    a: i8,
    m: i8,
    c: bool,
) -> (i8, bool, bool, bool, bool, bool) {
    let r = wrap_add(wrap_add(a, m), if c { 1i8 } else { 0i8 });
    let carrytests = (a & m) | (m & !r) | (!r & a);
    let overflowtests = ((a & m) | (m & r) | (r & a)) & -64i8;
    (r, carrytests < 0, r == 0, r < 0, carrytests & 0x08 != 0, overflowtests != 0 && overflowtests != -64i8)
}

/// Signed byte addition, wrapping.
pub open spec fn wrap_add(a: i8, b: i8) -> i8 {
    crate::machine::wrap_i8(a + b)
}

impl Stm8Instruction {
    /// Whether the instruction can run: it needs an 8-bit operand that can be read.
    pub open spec fn can_operate(self, s: Stm8View) -> bool {
        self.operand is Alu8 && self.operand->Alu8_0.can_read(s)
    }

    /// The state after the instruction runs. Everything it sets is unknown if the accumulator,
    /// the operand (or, for `adc`, the carry) is.
    pub open spec fn spec_operate(self, s: Stm8View) -> Stm8View {
        let val = self.operand->Alu8_0.spec_get_u8(s);
        let cin = match self.op {
            Stm8Op::Adc => s.carry,
            Stm8Op::Add => Some(false),
        };
        match (s.a, val, cin) {
            (Some(a), Some(m), Some(c)) => {
                let (r, carry, zero, sign, half, overflow) = alu_add(a as i8, m as i8, c);
                Stm8View {
                    a: Some(r as u8),
                    carry: Some(carry),
                    zero: Some(zero),
                    sign: Some(sign),
                    halfcarry: Some(half),
                    overflow: Some(overflow),
                    ..s
                }
            },
            _ => Stm8View {
                a: None,
                carry: None,
                zero: None,
                sign: None,
                halfcarry: None,
                overflow: None,
                ..s
            },
        }
    }

    /// Runs the instruction.
    pub fn operate(&self, s: &mut Stm8)
        requires
            self.can_operate(old(s)@),
        ensures
            final(s)@ == self.spec_operate(old(s)@),
    {
        let val = self.operand.get_alu8().get_u8(s);
        let cin = match self.op {
            Stm8Op::Adc => s.carry,
            Stm8Op::Add => Some(false),
        };
        match (s.a, val, cin) {
            (Some(a), Some(m), Some(c)) => {
                let a = a as i8;
                let m = m as i8;
                let r = a.wrapping_add(m).wrapping_add(if c { 1 } else { 0 });
                let carrytests = (a & m) | (m & !r) | (!r & a);
                let overflowtests = ((a & m) | (m & r) | (r & a)) & -64i8;
                s.carry = Some(carrytests < 0);
                s.zero = Some(r == 0);
                s.sign = Some(r < 0);
                s.halfcarry = Some(carrytests & 0x08 != 0);
                s.overflow = Some(overflowtests != 0 && overflowtests != -64i8);
                s.a = Some(r as u8);
            },
            _ => {
                s.carry = None;
                s.zero = None;
                s.sign = None;
                s.halfcarry = None;
                s.overflow = None;
                s.a = None;
            },
        }
    }

    /// The length of the instruction in bytes (not yet modelled: always one).
    pub fn length(&self) -> (r: usize)
        ensures
            r == 1,
    {
        1usize
    }

    /// The text of the instruction as the disassembler writes it.
    pub open spec fn dasm(self) -> Seq<char> {
        match self.operand {
            Stm8Operands::Alu8(v) => seq!['\t'] + mnemonic(self.op) + " a, "@ + v.debug_text(),
            Stm8Operands::Alu16(r, _) => seq!['\t'] + mnemonic(self.op) + "w "@ + r.name(),
        }
    }

    /// Disassembles the instruction.
    pub fn to_string(&self) -> (r: String)
        ensures
            r@ == self.dasm(),
    {
        let mut s = String::new();
        push_str(&mut s, "\t");
        proof {
            reveal_strlit("\t");
        }
        match self.op {
            Stm8Op::Adc => push_str(&mut s, "adc"),
            Stm8Op::Add => push_str(&mut s, "add"),
        }
        match self.operand {
            Stm8Operands::Alu8(v) => {
                push_str(&mut s, " a, ");
                v.push_debug(&mut s);
            },
            Stm8Operands::Alu16(r, _) => {
                push_str(&mut s, "w ");
                r.push_name(&mut s);
            },
        }
        assert(s@ =~= self.dasm());
        s
    }

    /// A random instruction: `adc` or `add` with its operand mutated from the constant zero.
    pub fn new() -> (r: Self)
        ensures
            r.operand matches Stm8Operands::Alu8(Operand8::Imm8(v)) && crate::machine::kr580vm1::byte_mutation(0, v),
    {
        let instructions: [Stm8Instruction; 2] = [adc_insn(), add_insn()];
        let mut insn = instructions[random_below(2)];
        insn.operand.mutate();
        insn
    }
}

/// Add with carry, with the constant operand zero.
pub fn adc_insn() -> (r: Stm8Instruction)
    ensures
        r == (Stm8Instruction { op: Stm8Op::Adc, operand: Stm8Operands::Alu8(Operand8::Imm8(0)) }),
{
    Stm8Instruction { op: Stm8Op::Adc, operand: Stm8Operands::Alu8(Operand8::Imm8(0)) }
}

/// Add, with the constant operand zero.
pub fn add_insn() -> (r: Stm8Instruction)
    ensures
        r == (Stm8Instruction { op: Stm8Op::Add, operand: Stm8Operands::Alu8(Operand8::Imm8(0)) }),
{
    Stm8Instruction { op: Stm8Op::Add, operand: Stm8Operands::Alu8(Operand8::Imm8(0)) }
}

impl Strop for Stm8Instruction {
    open spec fn can_mutate(&self) -> bool {
        self.operand.can_mutate()
    }

    /// A random instruction: `adc` or `add` with its operand mutated from the constant zero.
    fn random() -> (r: Stm8Instruction)
        ensures
            r.operand matches Stm8Operands::Alu8(Operand8::Imm8(v)) && crate::machine::kr580vm1::byte_mutation(0, v),
    {
        Stm8Instruction::new()
    }

    /// Mutates the instruction's operand; the operation stays.
    fn mutate(&mut self)
        ensures
            final(self).op == old(self).op,
            operands_mutation(old(self).operand, final(self).operand),
    {
        self.operand.mutate()
    }
}

} // verus!
