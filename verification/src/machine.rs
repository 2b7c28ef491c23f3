//! Machine models: each holds the state of a CPU as optional values (`None` standing for an
//! unknown value), and instructions that act on that state.
//!
//! This module itself models a small subset of the MOS 6502 in that style.
use crate::random::{random_below, random_i8, random_u16};
use crate::text::{dec, dec_signed, push_dec, push_dec_signed, push_str};
use std::collections::HashMap;
use vstd::prelude::*;

pub mod kr580vm1;
pub mod stm8;

verus! {

broadcast use vstd::std_specs::hash::group_hash_axioms;

/// Things that a search can pick at random and perturb.
pub trait Strop: Sized {
    /// Whether `mutate` may be called on this value.
    spec fn can_mutate(&self) -> bool;

    /// Returns a random value.
    fn random() -> Self;

    /// Applies a random, small change to the value.
    fn mutate(&mut self)
        requires
            old(self).can_mutate(),
    ;
}

/// Where an instruction takes its operand from.
#[derive(Clone, Copy, Debug, PartialEq, Eq, Structural)]
pub enum AddressingMode {
    Implicit,
    Immediate(i8),
    Absolute(u16),
}

/// What an instruction does to the machine state.
#[derive(Clone, Copy, Debug, PartialEq, Eq, Structural)]
pub enum Operation {
    And,
    Asl,
    AdcDp,
    Clc,
    Dea,
    Dex,
    Dey,
    Ina,
    Inx,
    Iny,
    Lda,
    Ldx,
    Ldy,
    Lsr,
    Rol,
    Ror,
    Sec,
    Sta,
    Stx,
    Sty,
    Stz,
    Tax,
    Tay,
    Txa,
    Tya,
}

/// An instruction: a mnemonic, an operation, and where the operand comes from.
#[derive(Clone, Copy, Debug)]
pub struct Instruction {
    opname: &'static str,
    pub operation: Operation,
    src: AddressingMode,
}

/// The result and zero flag of a bitwise and, when both operands are known.
pub open spec fn spec_bitwise_and(reg: Option<i8>, a: Option<i8>) -> (Option<i8>, Option<bool>) {
    match (reg, a) {
        (Some(r), Some(operand)) => (Some(r & operand), Some(r & operand == 0)),
        _ => (None, None),
    }
}

/// Computes a bitwise and of a register and an operand; unknown if either is unknown.
pub fn bitwise_and(reg: Option<i8>, a: Option<i8>) -> (r: (Option<i8>, Option<bool>))
    ensures
        r == spec_bitwise_and(reg, a),
{
    if let Some(operand) = a {
        if let Some(r) = reg {
            return (Some(r & operand), Some(r & operand == 0));
        }
    }
    (None, None)
}

/// A signed byte wrapped into range.
pub open spec fn wrap_i8(x: int) -> i8 {
    (if x > 127 { x - 256 } else if x < -128 { x + 256 } else { x }) as i8
}

/// The byte `b` read as unsigned.
pub open spec fn unsigned_byte(b: i8) -> int {
    if b < 0 {
        b + 256
    } else {
        b as int
    }
}

/// The outcome of an 8-bit addition with carry in, when all three inputs are known: the result,
/// then the carry, zero, sign, overflow and half-carry flags. The carry flag is the carry out of
/// bit 7 of the unsigned sum of register, operand and carry in; the overflow flag is set when two
/// positive (or two negative) values give a non-positive (non-negative) result; the half carry
/// comes from bit 4 of `register ^ operand ^ result`.

pub open spec fn spec_add_to_reg8(reg: Option<i8>, a: Option<i8>, carry: Option<bool>) -> (
    Option<i8>,
    Option<bool>,
    Option<bool>,
    Option<bool>,
    Option<bool>,
    Option<bool>,
) {
    match (reg, a, carry) {
        (Some(r), Some(operand), Some(c)) => {
            let v = wrap_i8(operand + if c { 1int } else { 0int });
            let result = wrap_i8(r + v);
            (
                Some(result),
                Some(unsigned_byte(r) + unsigned_byte(operand) + (if c { 1int } else { 0int }) > 255),
                Some(result == 0),
                Some(result < 0),
                Some((r < 0 && v < 0 && result >= 0) || (r > 0 && v > 0 && result <= 0)),
                Some(((r ^ v ^ result) & 0x10) == 0x10),
            )
        },
        _ => (None, None, None, None, None, None),
    }
}

/// Adds an operand and a carry to a register, returning the result and then the flags: carry,
/// zero, sign, overflow, half-carry. Everything is unknown if any input is unknown.
#[allow(clippy::many_single_char_names)]
pub fn add_to_reg8(reg: Option<i8>, a: Option<i8>, carry: Option<bool>) -> (r: (
    Option<i8>,
    Option<bool>,
    Option<bool>,
    Option<bool>,
    Option<bool>,
    Option<bool>,
))
    ensures
        r == spec_add_to_reg8(reg, a, carry),
{
    // The return values are the result of the addition, then the flags, carry, zero, sign, overflow, half-carry.
    if let Some(operand) = a {
        if let Some(r) = reg {
            if let Some(c) = carry {
                let v = operand.wrapping_add(if c { 1 } else { 0 });
                let result = r.wrapping_add(v);
                let z = result == 0;
                let ru: u16 = if r < 0 { (r as i16 + 256) as u16 } else { r as u16 };
                let ou: u16 = if operand < 0 { (operand as i16 + 256) as u16 } else { operand as u16 };
                let c = ru + ou + (if c { 1u16 } else { 0u16 }) > 255;
                let n = result < 0;
                let o = (r < 0 && v < 0 && result >= 0) || (r > 0 && v > 0 && result <= 0);
                let h = ((r ^ v ^ result) & 0x10) == 0x10;
                (Some(result), Some(c), Some(z), Some(n), Some(o), Some(h))
            } else {
                (None, None, None, None, None, None)
            }
        } else {
            (None, None, None, None, None, None)
        }
    } else {
        (None, None, None, None, None, None)
    }
}

/// Rotating left through the carry: the low seven bits move up one place, the carry comes in at
/// bit 0 and bit 7 goes out to the carry.
pub open spec fn spec_rotate_left_thru_carry(val: Option<i8>, carry: Option<bool>) -> (
    Option<i8>,
    Option<bool>,
) {
    match (carry, val) {
        (Some(c), Some(v)) => (
            Some((((v & 0x7f) as u8) * 2 + if c { 1u8 } else { 0u8 }) as i8),
            Some(v < 0),
        ),
        _ => (None, None),
    }
}

fn rotate_left_thru_carry(val: Option<i8>, carry: Option<bool>) -> (r: (Option<i8>, Option<bool>))
    ensures
        r == spec_rotate_left_thru_carry(val, carry),
{
    match (carry, val) {
        (Some(c), Some(v)) => {
            let high_bit_set = v & -128i8 != 0;
            assert(high_bit_set == (v < 0)) by (bit_vector)
                requires
                    high_bit_set == (v & (-128i8) != 0i8),
            ;
            let low: u8 = (v & 0x7f) as u8;
            assert(low < 128) by (bit_vector)
                requires
                    low == (v & 0x7f) as u8,
            ;
            let shifted: u8 = low * 2;
            (Some((if c { shifted + 1 } else { shifted }) as i8), Some(high_bit_set))
        },
        _ => (None, None),
    }
}

/// Rotating the low seven bits right by one place (bit 0 comes round to bit 7), then setting
/// bit 7 when the carry is set; bit 0 goes out to the carry.
pub open spec fn spec_rotate_right_thru_carry(val: Option<i8>, carry: Option<bool>) -> (
    Option<i8>,
    Option<bool>,
) {
    match (carry, val) {
        (Some(c), Some(v)) => {
            let x = (v & 0x7f) as u8;
            let shifted = (x >> 1u8) | ((x & 1) << 7u8);
            (Some((if c { shifted | 0x80 } else { shifted }) as i8), Some(v & 1 != 0))
        },
        _ => (None, None),
    }
}

fn rotate_right_thru_carry(val: Option<i8>, carry: Option<bool>) -> (r: (
    Option<i8>,
    Option<bool>,
))
    ensures
        r == spec_rotate_right_thru_carry(val, carry),
{
    match (carry, val) {
        (Some(c), Some(v)) => {
            let low_bit_set = v & 1 != 0;
            let x: u8 = (v & 0x7f) as u8;
            let shifted: u8 = (x >> 1u8) | ((x & 1) << 7u8);
            (Some((if c { shifted | 0x80 } else { shifted }) as i8), Some(low_bit_set))
        },
        _ => (None, None),
    }
}

/// The state of the modelled processor as the contracts see it.
pub ghost struct StateView {
    pub accumulator: Option<i8>,
    pub x8: Option<i8>,
    pub y8: Option<i8>,
    pub zero: Option<bool>,
    pub carry: Option<bool>,
    pub sign: Option<bool>,
    pub overflow: Option<bool>,
    pub halfcarry: Option<bool>,
    pub heap: Map<u16, Option<i8>>,
}

/// The state of the modelled processor: registers, flags and memory, each possibly unknown.
pub struct State {
    accumulator: Option<i8>,
    x8: Option<i8>,
    y8: Option<i8>,
    zero: Option<bool>,
    carry: Option<bool>,
    sign: Option<bool>,
    overflow: Option<bool>,
    halfcarry: Option<bool>,
    heap: HashMap<u16, Option<i8>>,
}

impl View for State {
    type V = StateView;

    closed spec fn view(&self) -> StateView {
        StateView {
            accumulator: self.accumulator,
            x8: self.x8,
            y8: self.y8,
            zero: self.zero,
            carry: self.carry,
            sign: self.sign,
            overflow: self.overflow,
            halfcarry: self.halfcarry,
            heap: self.heap@,
        }
    }
}

impl State {
    /// A state of which nothing is known.
    pub fn new() -> (r: State)
        ensures
            r@ == (StateView {
                accumulator: None,
                x8: None,
                y8: None,
                zero: None,
                carry: None,
                sign: None,
                overflow: None,
                halfcarry: None,
                heap: Map::empty(),
            }),
    {
        State {
            accumulator: None,
            x8: None,
            y8: None,
            zero: None,
            carry: None,
            sign: None,
            overflow: None,
            halfcarry: None,
            heap: HashMap::new(),
        }
    }
}

/// Sets the accumulator to a known value.
pub fn set_a(state: &mut State, a: i8)
    ensures
        final(state)@ == (StateView { accumulator: Some(a), ..old(state)@ }),
{
    state.accumulator = Some(a);
}

/// The accumulator, if known.
pub fn get_a(state: &State) -> (r: Option<i8>)
    ensures
        r == state@.accumulator,
{
    state.accumulator
}

/// Sets the X register to a known value.
pub fn set_x(state: &mut State, x: i8)
    ensures
        final(state)@ == (StateView { x8: Some(x), ..old(state)@ }),
{
    state.x8 = Some(x);
}

/// The X register, if known.
pub fn get_x(state: &State) -> (r: Option<i8>)
    ensures
        r == state@.x8,
{
    state.x8
}

/// Sets the Y register to a known value.
pub fn set_y(state: &mut State, y: i8)
    ensures
        final(state)@ == (StateView { y8: Some(y), ..old(state)@ }),
{
    state.y8 = Some(y);
}

/// The Y register, if known.
pub fn get_y(state: &State) -> (r: Option<i8>)
    ensures
        r == state@.y8,
{
    state.y8
}


impl StateView {
    /// The operand that the addressing mode names: a constant, or a byte of memory (unknown if
    /// nothing was ever written there).
    pub open spec fn datum(self, src: AddressingMode) -> Option<i8> {
        match src {
            AddressingMode::Immediate(c) => Some(c),
            AddressingMode::Absolute(a) => if self.heap.contains_key(a) {
                self.heap[a]
            } else {
                None
            },
            AddressingMode::Implicit => None,
        }
    }
}

/// The mnemonic, operation and operand source of an entry of an instruction list.
pub open spec fn is_entry(i: Instruction, name: Seq<char>, op: Operation, src: AddressingMode) -> bool {
    i.spec_opname() == name && i.spec_operation() == op && i.spec_src() == src
}

/// The instructions that `mos6502` lists, in order: mnemonic, operation, operand source.
pub open spec fn mos6502_table() -> Seq<(Seq<char>, Operation, AddressingMode)> {
    seq![
        ("inx"@, Operation::Inx, AddressingMode::Implicit),
        ("iny"@, Operation::Iny, AddressingMode::Implicit),
        ("dex"@, Operation::Dex, AddressingMode::Implicit),
        ("dey"@, Operation::Dey, AddressingMode::Implicit),
        ("tax"@, Operation::Tax, AddressingMode::Implicit),
        ("tay"@, Operation::Tay, AddressingMode::Implicit),
        ("txa"@, Operation::Txa, AddressingMode::Implicit),
        ("tya"@, Operation::Tya, AddressingMode::Implicit),
        ("asl a"@, Operation::Asl, AddressingMode::Implicit),
        ("rol"@, Operation::Rol, AddressingMode::Implicit),
        ("ror"@, Operation::Ror, AddressingMode::Implicit),
        ("lsr"@, Operation::Lsr, AddressingMode::Implicit),
        ("clc"@, Operation::Clc, AddressingMode::Implicit),
        ("sec"@, Operation::Sec, AddressingMode::Implicit),
        ("adc"@, Operation::AdcDp, AddressingMode::Immediate(0)),
        ("and"@, Operation::And, AddressingMode::Immediate(0)),
        ("adc"@, Operation::AdcDp, AddressingMode::Absolute(0)),
        ("lda"@, Operation::Lda, AddressingMode::Absolute(0)),
        ("sta"@, Operation::Sta, AddressingMode::Absolute(0)),
        ("ldx"@, Operation::Ldx, AddressingMode::Absolute(0)),
        ("stx"@, Operation::Stx, AddressingMode::Absolute(0)),
        ("ldy"@, Operation::Ldy, AddressingMode::Absolute(0)),
        ("sty"@, Operation::Sty, AddressingMode::Absolute(0)),
    ]
}

/// The instructions that `mos65c02` lists, in order.
pub open spec fn mos65c02_table() -> Seq<(Seq<char>, Operation, AddressingMode)> {
    seq![
        ("ina"@, Operation::Ina, AddressingMode::Implicit),
        ("dea"@, Operation::Dea, AddressingMode::Implicit),
        ("stz"@, Operation::Stz, AddressingMode::Implicit),
    ] + mos6502_table()
}

/// Whether a list of instructions is the given table.
pub open spec fn lists(v: Seq<Instruction>, table: Seq<(Seq<char>, Operation, AddressingMode)>) -> bool {
    &&& v.len() == table.len()
    &&& forall|i: int| 0 <= i < v.len() ==> #[trigger] is_entry(v[i], table[i].0, table[i].1, table[i].2)
}

impl Instruction {
    /// The mnemonic.
    pub closed spec fn spec_opname(self) -> Seq<char> {
        self.opname@
    }

    /// What the instruction does.
    pub closed spec fn spec_operation(self) -> Operation {
        self.operation
    }

    /// Where the operand comes from.
    pub closed spec fn spec_src(self) -> AddressingMode {
        self.src
    }

    /// An instruction that takes no operand.
    pub fn inh(opname: &'static str, operation: Operation) -> (r: Instruction)
        ensures
            is_entry(r, opname@, operation, AddressingMode::Implicit),
    {
        Instruction { opname, operation, src: AddressingMode::Implicit }
    }

    /// An instruction taking a constant operand (initially zero).
    pub fn imm(opname: &'static str, operation: Operation) -> (r: Instruction)
        ensures
            is_entry(r, opname@, operation, AddressingMode::Immediate(0)),
    {
        Instruction { opname, operation, src: AddressingMode::Immediate(0) }
    }

    /// An instruction taking its operand from memory (initially address zero).
    pub fn abs(opname: &'static str, operation: Operation) -> (r: Instruction)
        ensures
            is_entry(r, opname@, operation, AddressingMode::Absolute(0)),
    {
        Instruction { opname, operation, src: AddressingMode::Absolute(0) }
    }

    /// Picks a new operand at random: one of `constants` for an immediate operand, one of `vars`
    /// for a memory operand (any value when the list is empty).
    pub fn randomize(&mut self, constants: &Vec<i8>, vars: &Vec<u16>)
        ensures
            final(self).spec_opname() == old(self).spec_opname(),
            final(self).spec_operation() == old(self).spec_operation(),
            match old(self).spec_src() {
                AddressingMode::Implicit => final(self).spec_src() == AddressingMode::Implicit,
                AddressingMode::Immediate(_) => final(self).spec_src() matches AddressingMode::Immediate(
                    c,
                ) && (constants@.len() > 0 ==> constants@.contains(c)),
                AddressingMode::Absolute(_) => final(self).spec_src() matches AddressingMode::Absolute(
                    a,
                ) && (vars@.len() > 0 ==> vars@.contains(a)),
            },
    {
        match self.src {
            AddressingMode::Implicit => {
                self.src = AddressingMode::Implicit;
            },
            AddressingMode::Immediate(_) => {
                if constants.len() > 0 {
                    // If there's any constants, then pick one.
                    let i = random_below(constants.len());
                    assert(constants@.contains(constants@[i as int]));
                    self.src = AddressingMode::Immediate(constants[i]);
                } else {
                    // Otherwise pick any i8.
                    self.src = AddressingMode::Immediate(random_i8());
                }
            },
            AddressingMode::Absolute(_) => {
                if vars.len() > 0 {
                    // If there's any variables, then pick one.
                    let i = random_below(vars.len());
                    assert(vars@.contains(vars@[i as int]));
                    self.src = AddressingMode::Absolute(vars[i]);
                } else {
                    // Otherwise pick any random address. (this is unlikely to be any good)
                    self.src = AddressingMode::Absolute(random_u16());
                }
            },
        }
    }

    /// Every variant of the instruction: itself if it takes no operand, else one copy per
    /// constant (immediate operand) or per variable (memory operand), in order.
    pub fn vectorize(&self, constants: &[i8], vars: &[u16]) -> (r: Vec<Instruction>)
        ensures
            match self.spec_src() {
                AddressingMode::Implicit => r@ == seq![*self],
                AddressingMode::Immediate(_) => r@.len() == constants@.len() && forall|i: int|
                    0 <= i < r@.len() ==> #[trigger] is_entry(
                        r@[i],
                        self.spec_opname(),
                        self.spec_operation(),
                        AddressingMode::Immediate(constants@[i]),
                    ),
                AddressingMode::Absolute(_) => r@.len() == vars@.len() && forall|i: int|
                    0 <= i < r@.len() ==> #[trigger] is_entry(
                        r@[i],
                        self.spec_opname(),
                        self.spec_operation(),
                        AddressingMode::Absolute(vars@[i]),
                    ),
            },
    {
        match self.src {
            AddressingMode::Implicit => {
                let mut v = Vec::new();
                v.push(*self);
                v
            },
            AddressingMode::Immediate(_) => {
                let mut v: Vec<Instruction> = Vec::new();
                for j in 0..constants.len()
                    invariant
                        v@.len() == j,
                        forall|i: int|
                            0 <= i < j ==> #[trigger] is_entry(
                                v@[i],
                                self.opname@,
                                self.operation,
                                AddressingMode::Immediate(constants@[i]),
                            ),
                {
                    v.push(
                        Instruction {
                            opname: self.opname,
                            operation: self.operation,
                            src: AddressingMode::Immediate(constants[j]),
                        },
                    );
                }
                v
            },
            AddressingMode::Absolute(_) => {
                let mut v: Vec<Instruction> = Vec::new();
                for j in 0..vars.len()
                    invariant
                        v@.len() == j,
                        forall|i: int|
                            0 <= i < j ==> #[trigger] is_entry(
                                v@[i],
                                self.opname@,
                                self.operation,
                                AddressingMode::Absolute(vars@[i]),
                            ),
                {
                    v.push(
                        Instruction {
                            opname: self.opname,
                            operation: self.operation,
                            src: AddressingMode::Absolute(vars[j]),
                        },
                    );
                }
                v
            },
        }
    }

    fn get_datum(&self, m: &State) -> (r: Option<i8>)
        requires
            self.spec_src() != AddressingMode::Implicit,
        ensures
            r == m@.datum(self.spec_src()),
    {
        match self.src {
            AddressingMode::Implicit => None,
            AddressingMode::Immediate(constant) => Some(constant),
            AddressingMode::Absolute(address) => {
                match m.heap.get(&address) {
                    Some(x) => *x,
                    None => None,
                }
            },
        }
    }

    fn write_datum(&self, m: &mut State, val: Option<i8>)
        requires
            self.src is Absolute,
        ensures
            final(m)@ == (StateView { heap: old(m)@.heap.insert(self.src->Absolute_0, val), ..old(m)@ }),
    {
        if let AddressingMode::Absolute(address) = self.src {
            m.heap.insert(address, val);
        }
    }

    /// Whether the instruction can run: instructions that read an operand need one, and those that
    /// store need a memory operand.
    pub open spec fn can_operate(self) -> bool {
        match self.spec_operation() {
            Operation::And | Operation::AdcDp | Operation::Lda | Operation::Ldx | Operation::Ldy =>
                self.spec_src() != AddressingMode::Implicit,
            Operation::Sta | Operation::Stx | Operation::Sty | Operation::Stz => self.spec_src() is Absolute,
            _ => true,
        }
    }

    /// The state after the instruction runs. The transfers change no flags.
    pub open spec fn spec_operate(self, s: StateView) -> StateView {
        let d = s.datum(self.spec_src());
        match self.spec_operation() {
            Operation::And => {
                let (result, z) = spec_bitwise_and(s.accumulator, d);
                StateView { accumulator: result, zero: z, ..s }
            },
            Operation::Asl => {
                let (val, c) = spec_rotate_left_thru_carry(s.accumulator, Some(false));
                StateView { accumulator: val, carry: c, ..s }
            },
            Operation::AdcDp => {
                let (result, c, z, n, o, h) = spec_add_to_reg8(s.accumulator, d, s.carry);
                StateView {
                    accumulator: result,
                    sign: n,
                    carry: c,
                    zero: z,
                    overflow: o,
                    halfcarry: h,
                    ..s
                }
            },
            Operation::Clc => StateView { carry: Some(false), ..s },
            Operation::Sec => StateView { carry: Some(true), ..s },
            Operation::Dea => {
                let r = spec_add_to_reg8(s.accumulator, Some(-1i8), Some(false));
                StateView { accumulator: r.0, zero: r.2, sign: r.3, ..s }
            },
            Operation::Dex => {
                let r = spec_add_to_reg8(s.x8, Some(-1i8), Some(false));
                StateView { x8: r.0, zero: r.2, sign: r.3, ..s }
            },
            Operation::Dey => {
                let r = spec_add_to_reg8(s.y8, Some(-1i8), Some(false));
                StateView { y8: r.0, zero: r.2, sign: r.3, ..s }
            },
            Operation::Ina => {
                let r = spec_add_to_reg8(s.accumulator, Some(1i8), Some(false));
                StateView { accumulator: r.0, zero: r.2, sign: r.3, ..s }
            },
            Operation::Inx => {
                let r = spec_add_to_reg8(s.x8, Some(1i8), Some(false));
                StateView { x8: r.0, zero: r.2, sign: r.3, ..s }
            },
            Operation::Iny => {
                let r = spec_add_to_reg8(s.y8, Some(1i8), Some(false));
                StateView { y8: r.0, zero: r.2, sign: r.3, ..s }
            },
            Operation::Lda => StateView { accumulator: d, ..s },
            Operation::Ldx => StateView { x8: d, ..s },
            Operation::Ldy => StateView { y8: d, ..s },
            Operation::Lsr => {
                let (val, c) = spec_rotate_right_thru_carry(s.accumulator, Some(false));
                StateView { accumulator: val, carry: c, ..s }
            },
            Operation::Rol => {
                let (val, c) = spec_rotate_left_thru_carry(s.accumulator, s.carry);
                StateView { accumulator: val, carry: c, ..s }
            },
            Operation::Ror => {
                let (val, c) = spec_rotate_right_thru_carry(s.accumulator, s.carry);
                StateView { accumulator: val, carry: c, ..s }
            },
            Operation::Sta => StateView { heap: s.heap.insert(self.spec_src()->Absolute_0, s.accumulator), ..s },
            Operation::Stx => StateView { heap: s.heap.insert(self.spec_src()->Absolute_0, s.x8), ..s },
            Operation::Sty => StateView { heap: s.heap.insert(self.spec_src()->Absolute_0, s.y8), ..s },
            Operation::Stz => StateView { heap: s.heap.insert(self.spec_src()->Absolute_0, Some(0)), ..s },
            Operation::Tax => StateView { x8: s.accumulator, ..s },
            Operation::Tay => StateView { y8: s.accumulator, ..s },
            Operation::Txa => StateView { accumulator: s.x8, ..s },
            Operation::Tya => StateView { accumulator: s.y8, ..s },
        }
    }

    /// Runs the instruction on the state. Always returns true.
    pub fn operate(&self, s: &mut State) -> (r: bool)
        requires
            self.can_operate(),
        ensures
            r,
            final(s)@ == self.spec_operate(old(s)@),
    {
        match self.operation {
            Operation::And => self.op_and(s),
            Operation::Asl => self.op_asl(s),
            Operation::AdcDp => self.op_adc_dp(s),
            Operation::Clc => self.op_clc(s),
            Operation::Dea => self.op_dea(s),
            Operation::Dex => self.op_dex(s),
            Operation::Dey => self.op_dey(s),
            Operation::Ina => self.op_ina(s),
            Operation::Inx => self.op_inx(s),
            Operation::Iny => self.op_iny(s),
            Operation::Lda => self.op_lda(s),
            Operation::Ldx => self.op_ldx(s),
            Operation::Ldy => self.op_ldy(s),
            Operation::Lsr => self.op_lsr(s),
            Operation::Rol => self.op_rol(s),
            Operation::Ror => self.op_ror(s),
            Operation::Sec => self.op_sec(s),
            Operation::Sta => self.op_sta(s),
            Operation::Stx => self.op_stx(s),
            Operation::Sty => self.op_sty(s),
            Operation::Stz => self.op_stz(s),
            Operation::Tax => self.op_tax(s),
            Operation::Tay => self.op_tay(s),
            Operation::Txa => self.op_txa(s),
            Operation::Tya => self.op_tya(s),
        }
    }

    #[allow(clippy::many_single_char_names)]
    fn op_and(&self, s: &mut State) -> (r: bool)
        requires
            self.spec_operation() == Operation::And,
            self.can_operate(),
        ensures
            r && final(s)@ == self.spec_operate(old(s)@),
    {
        let (result, z) = bitwise_and(s.accumulator, self.get_datum(s));
        s.accumulator = result;
        s.zero = z;
        true
    }

    fn op_asl(&self, s: &mut State) -> (r: bool)
        requires
            self.spec_operation() == Operation::Asl,
        ensures
            r && final(s)@ == self.spec_operate(old(s)@),
    {
        let (val, c) = rotate_left_thru_carry(s.accumulator, Some(false));
        s.accumulator = val;
        s.carry = c;
        true
    }

    #[allow(clippy::many_single_char_names)]
    fn op_adc_dp(&self, s: &mut State) -> (r: bool)
        requires
            self.spec_operation() == Operation::AdcDp,
            self.can_operate(),
        ensures
            r && final(s)@ == self.spec_operate(old(s)@),
    {
        // The decimal flag is not consulted: the addition is binary.
        let (result, c, z, n, o, h) = add_to_reg8(s.accumulator, self.get_datum(s), s.carry);
        s.accumulator = result;
        s.sign = n;
        s.carry = c;
        s.zero = z;
        s.overflow = o;
        s.halfcarry = h;
        true
    }

    fn op_clc(&self, s: &mut State) -> (r: bool)
        requires
            self.spec_operation() == Operation::Clc,
        ensures
            r && final(s)@ == self.spec_operate(old(s)@),
    {
        s.carry = Some(false);
        true
    }

    fn op_dea(&self, s: &mut State) -> (r: bool)
        requires
            self.spec_operation() == Operation::Dea,
        ensures
            r && final(s)@ == self.spec_operate(old(s)@),
    {
        let (result, _c, z, n, _o, _h) = add_to_reg8(s.accumulator, Some(-1), Some(false));
        s.accumulator = result;
        s.zero = z;
        s.sign = n;
        true
    }

    fn op_dex(&self, s: &mut State) -> (r: bool)
        requires
            self.spec_operation() == Operation::Dex,
        ensures
            r && final(s)@ == self.spec_operate(old(s)@),
    {
        let (result, _c, z, n, _o, _h) = add_to_reg8(s.x8, Some(-1), Some(false));
        s.x8 = result;
        s.zero = z;
        s.sign = n;
        true
    }

    fn op_dey(&self, s: &mut State) -> (r: bool)
        requires
            self.spec_operation() == Operation::Dey,
        ensures
            r && final(s)@ == self.spec_operate(old(s)@),
    {
        let (result, _c, z, n, _o, _h) = add_to_reg8(s.y8, Some(-1), Some(false));
        s.y8 = result;
        s.zero = z;
        s.sign = n;
        true
    }

    fn op_ina(&self, s: &mut State) -> (r: bool)
        requires
            self.spec_operation() == Operation::Ina,
        ensures
            r && final(s)@ == self.spec_operate(old(s)@),
    {
        let (result, _c, z, n, _o, _h) = add_to_reg8(s.accumulator, Some(1), Some(false));
        s.accumulator = result;
        s.zero = z;
        s.sign = n;
        true
    }

    fn op_inx(&self, s: &mut State) -> (r: bool)
        requires
            self.spec_operation() == Operation::Inx,
        ensures
            r && final(s)@ == self.spec_operate(old(s)@),
    {
        let (result, _c, z, n, _o, _h) = add_to_reg8(s.x8, Some(1), Some(false));
        s.x8 = result;
        s.zero = z;
        s.sign = n;
        true
    }

    fn op_iny(&self, s: &mut State) -> (r: bool)
        requires
            self.spec_operation() == Operation::Iny,
        ensures
            r && final(s)@ == self.spec_operate(old(s)@),
    {
        let (result, _c, z, n, _o, _h) = add_to_reg8(s.y8, Some(1), Some(false));
        s.y8 = result;
        s.zero = z;
        s.sign = n;
        true
    }

    fn op_lda(&self, s: &mut State) -> (r: bool)
        requires
            self.spec_operation() == Operation::Lda,
            self.can_operate(),
        ensures
            r && final(s)@ == self.spec_operate(old(s)@),
    {
        s.accumulator = self.get_datum(s);
        true
    }

    fn op_ldx(&self, s: &mut State) -> (r: bool)
        requires
            self.spec_operation() == Operation::Ldx,
            self.can_operate(),
        ensures
            r && final(s)@ == self.spec_operate(old(s)@),
    {
        s.x8 = self.get_datum(s);
        true
    }

    fn op_ldy(&self, s: &mut State) -> (r: bool)
        requires
            self.spec_operation() == Operation::Ldy,
            self.can_operate(),
        ensures
            r && final(s)@ == self.spec_operate(old(s)@),
    {
        s.y8 = self.get_datum(s);
        true
    }

    fn op_lsr(&self, s: &mut State) -> (r: bool)
        requires
            self.spec_operation() == Operation::Lsr,
        ensures
            r && final(s)@ == self.spec_operate(old(s)@),
    {
        let (val, c) = rotate_right_thru_carry(s.accumulator, Some(false));
        s.accumulator = val;
        s.carry = c;
        true
    }

    fn op_rol(&self, s: &mut State) -> (r: bool)
        requires
            self.spec_operation() == Operation::Rol,
        ensures
            r && final(s)@ == self.spec_operate(old(s)@),
    {
        let (val, c) = rotate_left_thru_carry(s.accumulator, s.carry);
        s.accumulator = val;
        s.carry = c;
        true
    }

    fn op_ror(&self, s: &mut State) -> (r: bool)
        requires
            self.spec_operation() == Operation::Ror,
        ensures
            r && final(s)@ == self.spec_operate(old(s)@),
    {
        let (val, c) = rotate_right_thru_carry(s.accumulator, s.carry);
        s.accumulator = val;
        s.carry = c;
        true
    }

    fn op_sec(&self, s: &mut State) -> (r: bool)
        requires
            self.spec_operation() == Operation::Sec,
        ensures
            r && final(s)@ == self.spec_operate(old(s)@),
    {
        s.carry = Some(true);
        true
    }

    fn op_sta(&self, s: &mut State) -> (r: bool)
        requires
            self.spec_operation() == Operation::Sta,
            self.can_operate(),
        ensures
            r && final(s)@ == self.spec_operate(old(s)@),
    {
        let v = s.accumulator;
        self.write_datum(s, v);
        true
    }

    fn op_stx(&self, s: &mut State) -> (r: bool)
        requires
            self.spec_operation() == Operation::Stx,
            self.can_operate(),
        ensures
            r && final(s)@ == self.spec_operate(old(s)@),
    {
        let v = s.x8;
        self.write_datum(s, v);
        true
    }

    fn op_sty(&self, s: &mut State) -> (r: bool)
        requires
            self.spec_operation() == Operation::Sty,
            self.can_operate(),
        ensures
            r && final(s)@ == self.spec_operate(old(s)@),
    {
        let v = s.y8;
        self.write_datum(s, v);
        true
    }

    fn op_stz(&self, s: &mut State) -> (r: bool)
        requires
            self.spec_operation() == Operation::Stz,
            self.can_operate(),
        ensures
            r && final(s)@ == self.spec_operate(old(s)@),
    {
        self.write_datum(s, Some(0));
        true
    }

    fn op_tax(&self, s: &mut State) -> (r: bool)
        requires
            self.spec_operation() == Operation::Tax,
        ensures
            r && final(s)@ == self.spec_operate(old(s)@),
    {
        // The model leaves the flags untouched by this transfer.
        s.x8 = s.accumulator;
        true
    }

    fn op_tay(&self, s: &mut State) -> (r: bool)
        requires
            self.spec_operation() == Operation::Tay,
        ensures
            r && final(s)@ == self.spec_operate(old(s)@),
    {
        // The model leaves the flags untouched by this transfer.
        s.y8 = s.accumulator;
        true
    }

    fn op_txa(&self, s: &mut State) -> (r: bool)
        requires
            self.spec_operation() == Operation::Txa,
        ensures
            r && final(s)@ == self.spec_operate(old(s)@),
    {
        // The model leaves the flags untouched by this transfer.
        s.accumulator = s.x8;
        true
    }

    fn op_tya(&self, s: &mut State) -> (r: bool)
        requires
            self.spec_operation() == Operation::Tya,
        ensures
            r && final(s)@ == self.spec_operate(old(s)@),
    {
        // The model leaves the flags untouched by this transfer.
        s.accumulator = s.y8;
        true
    }

    /// The instruction as the disassembler writes it: a tab, the mnemonic, then `#` and the
    /// constant, or the address, in decimal.
    pub open spec fn dasm(self) -> Seq<char> {
        seq!['\t'] + self.spec_opname() + match self.spec_src() {
            AddressingMode::Implicit => Seq::<char>::empty(),
            AddressingMode::Immediate(c) => " #"@ + dec_signed(c as int),
            AddressingMode::Absolute(a) => " "@ + dec(a as nat),
        }
    }

    /// Disassembles the instruction.
    pub fn to_string(&self) -> (r: String)
        ensures
            r@ == self.dasm(),
    {
        let mut s = String::new();
        push_str(&mut s, "\t");
        proof {
            reveal_strlit("\t");
        }
        push_str(&mut s, self.opname);
        match self.src {
            AddressingMode::Implicit => {},
            AddressingMode::Immediate(constant) => {
                push_str(&mut s, " #");
                push_dec_signed(&mut s, constant as i32);
            },
            AddressingMode::Absolute(address) => {
                push_str(&mut s, " ");
                push_dec(&mut s, address as u32, 1);
            },
        }
        assert(s@ =~= self.dasm());
        s
    }
}

/// The instructions of the NMOS 6502 that the model knows.
pub fn mos6502() -> (r: Vec<Instruction>)
    ensures
        lists(r@, mos6502_table()),
{
    let r = vec![
        Instruction::inh("inx", Operation::Inx),
        Instruction::inh("iny", Operation::Iny),
        Instruction::inh("dex", Operation::Dex),
        Instruction::inh("dey", Operation::Dey),
        Instruction::inh("tax", Operation::Tax),
        Instruction::inh("tay", Operation::Tay),
        Instruction::inh("txa", Operation::Txa),
        Instruction::inh("tya", Operation::Tya),
        Instruction::inh("asl a", Operation::Asl),
        Instruction::inh("rol", Operation::Rol),
        Instruction::inh("ror", Operation::Ror),
        Instruction::inh("lsr", Operation::Lsr),
        Instruction::inh("clc", Operation::Clc),
        Instruction::inh("sec", Operation::Sec),
        Instruction::imm("adc", Operation::AdcDp),
        Instruction::imm("and", Operation::And),
        Instruction::abs("adc", Operation::AdcDp),
        Instruction::abs("lda", Operation::Lda),
        Instruction::abs("sta", Operation::Sta),
        Instruction::abs("ldx", Operation::Ldx),
        Instruction::abs("stx", Operation::Stx),
        Instruction::abs("ldy", Operation::Ldy),
        Instruction::abs("sty", Operation::Sty),
    ];
    assert forall|i: int| 0 <= i < r@.len() implies #[trigger] is_entry(
        r@[i],
        mos6502_table()[i].0,
        mos6502_table()[i].1,
        mos6502_table()[i].2,
    ) by {}
    r
}

/// The instructions of the 65C02 that the model knows: three CMOS additions, then those of the
/// NMOS 6502.
pub fn mos65c02() -> (r: Vec<Instruction>)
    ensures
        lists(r@, mos65c02_table()),
{
    let mut r = vec![
        Instruction::inh("ina", Operation::Ina),
        Instruction::inh("dea", Operation::Dea),
        Instruction::inh("stz", Operation::Stz),
    ];
    let mut rest = mos6502();
    let ghost listed = rest@;
    r.append(&mut rest);
    assert forall|i: int| 0 <= i < r@.len() implies #[trigger] is_entry(
        r@[i],
        mos65c02_table()[i].0,
        mos65c02_table()[i].1,
        mos65c02_table()[i].2,
    ) by {
        if i >= 3 {
            assert(is_entry(
                listed[i - 3],
                mos6502_table()[i - 3].0,
                mos6502_table()[i - 3].1,
                mos6502_table()[i - 3].2,
            ));
        }
    }
    r
}

/// A byte one less, wrapping from -128 round to 127.
pub open spec fn decremented(v: i8) -> i8 {
    if v == -128 {
        127
    } else {
        (v - 1) as i8
    }
}

/// A byte one more, wrapping from 127 round to -128.
pub open spec fn incremented(v: i8) -> i8 {
    if v == 127 {
        -128i8
    } else {
        (v + 1) as i8
    }
}

/// Decrementing a known register (`dex`, `dey`, `dea`) leaves it known and one less, wrapping
/// round from -128 to 127; incrementing (`inx`, `iny`, `ina`) leaves it one more, wrapping round
/// from 127 to -128. The zero and sign flags then describe the new value, and the other registers
/// are left as they were.
pub proof fn lemma_count_registers(i: Instruction, s: StateView, v: i8)
    ensures
        i.spec_operation() == Operation::Dex && s.x8 == Some(v) ==> {
            let t = i.spec_operate(s);
            &&& t.x8 == Some(decremented(v))
            &&& t.zero == Some(decremented(v) == 0) && t.sign == Some(decremented(v) < 0)
            &&& t.accumulator == s.accumulator && t.y8 == s.y8 && t.heap == s.heap
        },
        i.spec_operation() == Operation::Dey && s.y8 == Some(v) ==> {
            let t = i.spec_operate(s);
            &&& t.y8 == Some(decremented(v))
            &&& t.zero == Some(decremented(v) == 0) && t.sign == Some(decremented(v) < 0)
            &&& t.accumulator == s.accumulator && t.x8 == s.x8 && t.heap == s.heap
        },
        i.spec_operation() == Operation::Dea && s.accumulator == Some(v) ==> {
            let t = i.spec_operate(s);
            &&& t.accumulator == Some(decremented(v))
            &&& t.zero == Some(decremented(v) == 0) && t.sign == Some(decremented(v) < 0)
            &&& t.x8 == s.x8 && t.y8 == s.y8 && t.heap == s.heap
        },
        i.spec_operation() == Operation::Inx && s.x8 == Some(v) ==> {
            let t = i.spec_operate(s);
            &&& t.x8 == Some(incremented(v))
            &&& t.zero == Some(incremented(v) == 0) && t.sign == Some(incremented(v) < 0)
            &&& t.accumulator == s.accumulator && t.y8 == s.y8 && t.heap == s.heap
        },
        i.spec_operation() == Operation::Iny && s.y8 == Some(v) ==> {
            let t = i.spec_operate(s);
            &&& t.y8 == Some(incremented(v))
            &&& t.zero == Some(incremented(v) == 0) && t.sign == Some(incremented(v) < 0)
            &&& t.accumulator == s.accumulator && t.x8 == s.x8 && t.heap == s.heap
        },
        i.spec_operation() == Operation::Ina && s.accumulator == Some(v) ==> {
            let t = i.spec_operate(s);
            &&& t.accumulator == Some(incremented(v))
            &&& t.zero == Some(incremented(v) == 0) && t.sign == Some(incremented(v) < 0)
            &&& t.x8 == s.x8 && t.y8 == s.y8 && t.heap == s.heap
        },
{
}

} // verus!
