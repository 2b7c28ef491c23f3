//! The KR580VM1, a Soviet extension of the Intel 8080 with a second register pair (`h1l1`), a
//! second memory bank (`m1`) and the `rs` and `mb` prefixes selecting them.
use crate::machine::Strop;
use crate::random::{random_below, random_u16, random_u8};
use crate::text::{dec, hex_padded, push_dec, push_hex, push_str};
use vstd::string::*;
use std::collections::HashMap;
use vstd::prelude::*;

verus! {

broadcast use vstd::std_specs::hash::group_hash_axioms;

/// A pair of 8-bit registers, each of which may hold an unknown value.
#[derive(Clone, Copy, Debug)]
pub struct RegisterPair {
    low: Option<u8>,
    high: Option<u8>,
}

/// An 8-bit register, or the byte of memory (`m` in the main bank, `m1` in the second bank) that
/// the `hl` pair points at.
#[derive(Clone, Copy, Debug, PartialEq, Eq, Structural)]
pub enum R8 {
    A,
    B,
    C,
    D,
    E,
    H,
    L,
    H1,
    L1,
    M,
    M1,
}

impl R8 {
    /// The prefix that an instruction needs to name this register.
    fn prefix(self) -> (p: Prefix)
        ensures
            p == (if self == R8::H1 || self == R8::L1 || self == R8::M1 { Prefix::Rs } else { Prefix::Unprefixed }),
    {
        match self {
            R8::H1 => Prefix::Rs,
            R8::L1 => Prefix::Rs,
            R8::M1 => Prefix::Rs,
            _ => Prefix::Unprefixed,
        }
    }

    /// Returns true if M. This is used to calculate timing for instructions where M incurs
    /// a runtime cost.
    fn is_m(self) -> (r: bool)
        ensures
            r == (self == R8::M || self == R8::M1),
    {
        match self {
            R8::M => true,
            R8::M1 => true,
            _ => false,
        }
    }

    /// The register's name as the disassembler writes it.
    pub open spec fn name(self) -> Seq<char> {
        match self {
            R8::A => "a"@,
            R8::B => "b"@,
            R8::C => "c"@,
            R8::D => "d"@,
            R8::E => "e"@,
            R8::H => "h"@,
            R8::L => "l"@,
            R8::H1 => "h1"@,
            R8::L1 => "l1"@,
            R8::M => "m"@,
            R8::M1 => "m1"@,
        }
    }

    /// Appends the register's name to `s`.
    pub fn push_name(&self, s: &mut String)
        ensures
            final(s)@ == old(s)@ + self.name(),
    {
        match self {
            R8::A => push_str(s, "a"),
            R8::B => push_str(s, "b"),
            R8::C => push_str(s, "c"),
            R8::D => push_str(s, "d"),
            R8::E => push_str(s, "e"),
            R8::H => push_str(s, "h"),
            R8::L => push_str(s, "l"),
            R8::H1 => push_str(s, "h1"),
            R8::L1 => push_str(s, "l1"),
            R8::M => push_str(s, "m"),
            R8::M1 => push_str(s, "m1"),
        }
    }
}

/// The prefixes of the KR580VM1: `rs` selects the second register pair, `mb` the second memory
/// bank.
#[derive(Clone, Copy, Debug, PartialEq, Eq, Structural)]
pub enum Prefix {
    Unprefixed,
    Rs,
    Mb,
    MbRs,
}

impl Prefix {
    /// The machine cycles and clock tacts that the prefix adds to an instruction.
    pub open spec fn spec_cycles_tacts(self) -> (u8, u8) {
        match self {
            Prefix::Rs => (1, 4),
            Prefix::Mb => (1, 4),
            Prefix::MbRs => (2, 8),
            Prefix::Unprefixed => (0, 0),
        }
    }

    fn cycles_tacts(self) -> (r: (u8, u8))
        ensures
            r == self.spec_cycles_tacts(),
    {
        match self {
            Prefix::Rs => (1, 4),
            Prefix::Mb => (1, 4),
            Prefix::MbRs => (2, 8),
            Prefix::Unprefixed => (0, 0),
        }
    }

    /// The number of bytes the prefix occupies.
    pub open spec fn spec_length(self) -> usize {
        match self {
            Prefix::Rs => 1,
            Prefix::Mb => 1,
            Prefix::MbRs => 2,
            Prefix::Unprefixed => 0,
        }
    }

    fn length(self) -> (r: usize)
        ensures
            r == self.spec_length(),
    {
        match self {
            Prefix::Rs => 1usize,
            Prefix::Mb => 1usize,
            Prefix::MbRs => 2usize,
            _ => 0usize,
        }
    }

    /// Whether the prefix selects the second register pair.
    pub open spec fn spec_is_rs(self) -> bool {
        self == Prefix::Rs || self == Prefix::MbRs
    }

    fn is_rs(self) -> (r: bool)
        ensures
            r == self.spec_is_rs(),
    {
        match self {
            Prefix::Rs => true,
            Prefix::MbRs => true,
            _ => false,
        }
    }

    /// Whether the prefix selects the second memory bank.
    pub open spec fn spec_is_mb(self) -> bool {
        self == Prefix::Mb || self == Prefix::MbRs
    }

    fn is_mb(self) -> (r: bool)
        ensures
            r == self.spec_is_mb(),
    {
        match self {
            Prefix::Mb => true,
            Prefix::MbRs => true,
            _ => false,
        }
    }

    fn requires_kr580vm1(self) -> (r: bool)
        ensures
            r == (self != Prefix::Unprefixed),
    {
        match self {
            Prefix::Unprefixed => false,
            _ => true,
        }
    }

    /// Either no prefix or `mb`, chosen at random.
    fn mb() -> (p: Prefix)
        ensures
            p == Prefix::Unprefixed || p == Prefix::Mb,
    {
        match random_below(2) {
            0 => Prefix::Unprefixed,
            _ => Prefix::Mb,
        }
    }

    /// Either no prefix or `rs`, chosen at random.
    fn rs() -> (p: Prefix)
        ensures
            p == Prefix::Unprefixed || p == Prefix::Rs,
    {
        match random_below(2) {
            0 => Prefix::Unprefixed,
            _ => Prefix::Rs,
        }
    }

    /// Any of the four prefixes, chosen at random.
    fn mb_rs() -> (p: Prefix) {
        match random_below(4) {
            0 => Prefix::Unprefixed,
            1 => Prefix::Mb,
            2 => Prefix::Rs,
            _ => Prefix::MbRs,
        }
    }

    /// The prefix as the disassembler writes it.
    pub open spec fn name(self) -> Seq<char> {
        match self {
            Prefix::Unprefixed => ""@,
            Prefix::Rs => "rs "@,
            Prefix::Mb => "mb "@,
            Prefix::MbRs => "mb rs "@,
        }
    }

    /// Appends the prefix to `s`.
    pub fn push_name(&self, s: &mut String)
        ensures
            final(s)@ == old(s)@ + self.name(),
    {
        match self {
            Prefix::Unprefixed => push_str(s, ""),
            Prefix::Rs => push_str(s, "rs "),
            Prefix::Mb => push_str(s, "mb "),
            Prefix::MbRs => push_str(s, "mb rs "),
        }
    }
}

/// A register pair, or the stack pointer.
#[derive(Clone, Copy, Debug, PartialEq, Eq, Structural)]
pub enum R16 {
    BC,
    DE,
    HL,
    H1L1,
    SP,
}

/// This enum is the type whose possible values are BC or DE. It is used by
/// such instructions as LDAX and STAX.
#[derive(Clone, Copy, Debug, PartialEq, Eq, Structural)]
pub enum RegisterPairBorD {
    BC,
    DE,
}

impl RegisterPairBorD {
    /// The register pair this names.
    pub open spec fn spec_r16(self) -> R16 {
        match self {
            RegisterPairBorD::BC => R16::BC,
            RegisterPairBorD::DE => R16::DE,
        }
    }

    fn r16(&self) -> (r: R16)
        ensures
            r == self.spec_r16(),
    {
        match self {
            RegisterPairBorD::BC => R16::BC,
            RegisterPairBorD::DE => R16::DE,
        }
    }

    /// The pair's name as the disassembler writes it.
    pub open spec fn name(self) -> Seq<char> {
        match self {
            RegisterPairBorD::BC => "b"@,
            RegisterPairBorD::DE => "d"@,
        }
    }

    /// Appends the pair's name to `s`.
    pub fn push_name(&self, s: &mut String)
        ensures
            final(s)@ == old(s)@ + self.name(),
    {
        match self {
            RegisterPairBorD::BC => push_str(s, "b"),
            RegisterPairBorD::DE => push_str(s, "d"),
        }
    }
}

/// The 16-bit value of a pair whose high and low bytes are both known.
pub open spec fn pair_value(high: Option<u8>, low: Option<u8>) -> Option<u16> {
    match (high, low) {
        (Some(h), Some(l)) => Some((h as u16 * 256 + l as u16) as u16),
        _ => None,
    }
}

impl RegisterPair {
    /// The value of the pair, if both halves are known.
    pub closed spec fn spec_get_u16(self) -> Option<u16> {
        pair_value(self.high, self.low)
    }

    fn get_u16(self) -> (r: Option<u16>)
        ensures
            r == self.spec_get_u16(),
    {
        match (self.high, self.low) {
            (Some(h), Some(l)) => Some(h as u16 * 256 + l as u16),
            _ => None,
        }
    }
}

impl R16 {
    fn prefix(self) -> (p: Prefix)
        ensures
            p == (if self == R16::H1L1 { Prefix::Rs } else { Prefix::Unprefixed }),
    {
        match self {
            R16::H1L1 => Prefix::Rs,
            _ => Prefix::Unprefixed,
        }
    }

    /// The high and low registers making up the pair.
    pub open spec fn spec_split(self) -> (R8, R8) {
        match self {
            R16::BC => (R8::B, R8::C),
            R16::DE => (R8::D, R8::E),
            R16::HL => (R8::H, R8::L),
            R16::H1L1 => (R8::H1, R8::L1),
            R16::SP => (R8::A, R8::A),
        }
    }

    /// The stack pointer cannot be split into two 8-bit registers.
    fn split(self) -> (r: (R8, R8))
        requires
            self != R16::SP,
        ensures
            r == self.spec_split(),
    {
        match self {
            R16::BC => (R8::B, R8::C),
            R16::DE => (R8::D, R8::E),
            R16::HL => (R8::H, R8::L),
            R16::H1L1 => (R8::H1, R8::L1),
            R16::SP => (R8::A, R8::A),
        }
    }

    fn l(self) -> (r: R8)
        requires
            self != R16::SP,
        ensures
            r == self.spec_split().1,
    {
        self.split().1
    }

    fn h(self) -> (r: R8)
        requires
            self != R16::SP,
        ensures
            r == self.spec_split().0,
    {
        self.split().0
    }

    /// One of the two 8-bit halves of the pair, chosen at random; for the stack pointer, any
    /// 8-bit register.
    fn pick_one(self) -> (r: R8)
        ensures
            self != R16::SP ==> (r == self.spec_split().0 || r == self.spec_split().1),
    {
        match self {
            R16::BC => if random_below(2) == 0 { R8::B } else { R8::C },
            R16::DE => if random_below(2) == 0 { R8::D } else { R8::E },
            R16::HL => if random_below(2) == 0 { R8::H } else { R8::L },
            R16::H1L1 => if random_below(2) == 0 { R8::H1 } else { R8::L1 },
            R16::SP => R8::random(),
        }
    }

    /// The pair's name as the disassembler writes it.
    pub open spec fn name(self) -> Seq<char> {
        match self {
            R16::BC => "b"@,
            R16::DE => "d"@,
            R16::HL => "h"@,
            R16::H1L1 => "h1"@,
            R16::SP => "sp"@,
        }
    }

    /// Appends the pair's name to `s`.
    pub fn push_name(&self, s: &mut String)
        ensures
            final(s)@ == old(s)@ + self.name(),
    {
        match self {
            R16::BC => push_str(s, "b"),
            R16::DE => push_str(s, "d"),
            R16::HL => push_str(s, "h"),
            R16::H1L1 => push_str(s, "h1"),
            R16::SP => push_str(s, "sp"),
        }
    }
}

/// The byte that memory `m` holds at `addr`: unknown where nothing was ever written.
pub open spec fn mem_at(m: Map<u16, Option<u8>>, addr: Option<u16>) -> Option<u8> {
    match addr {
        Some(a) => if m.contains_key(a) { m[a] } else { None },
        None => None,
    }
}

/// Memory `m` after `val` is written at `addr`; a write to an unknown address changes nothing.
pub open spec fn mem_write(m: Map<u16, Option<u8>>, addr: Option<u16>, val: Option<u8>) -> Map<
    u16,
    Option<u8>,
> {
    match addr {
        Some(a) => m.insert(a, val),
        None => m,
    }
}

/// The state of the KR580VM1 as the contracts see it.
pub ghost struct KR580VM1View {
    pub a: Option<u8>,
    pub b: Option<u8>,
    pub c: Option<u8>,
    pub d: Option<u8>,
    pub e: Option<u8>,
    pub h: Option<u8>,
    pub l: Option<u8>,
    pub h1: Option<u8>,
    pub l1: Option<u8>,
    pub sp: Option<u16>,
    pub mf: bool,
    pub m: Map<u16, Option<u8>>,
    pub m1: Map<u16, Option<u8>>,
    pub tacts: nat,
    pub cycles: nat,
}

impl KR580VM1View {
    /// The address held by a register pair (or the stack pointer).
    pub open spec fn addr(self, rp: R16) -> Option<u16> {
        match rp {
            R16::BC => pair_value(self.b, self.c),
            R16::DE => pair_value(self.d, self.e),
            R16::HL => pair_value(self.h, self.l),
            R16::H1L1 => pair_value(self.h1, self.l1),
            R16::SP => self.sp,
        }
    }

    /// The byte in the memory bank that the prefix selects.
    pub open spec fn read_memp(self, pfx: Prefix, addr: Option<u16>) -> Option<u8> {
        if pfx.spec_is_mb() {
            mem_at(self.m1, addr)
        } else {
            mem_at(self.m, addr)
        }
    }

    /// The state after a write to the memory bank that the prefix selects.
    pub open spec fn write_memp(self, pfx: Prefix, addr: Option<u16>, val: Option<u8>) -> Self {
        if pfx.spec_is_mb() {
            KR580VM1View { m1: mem_write(self.m1, addr, val), ..self }
        } else {
            KR580VM1View { m: mem_write(self.m, addr, val), ..self }
        }
    }

    /// The value of an 8-bit register (or of the byte `hl` points at).
    pub open spec fn get8(self, r: R8) -> Option<u8> {
        match r {
            R8::A => self.a,
            R8::B => self.b,
            R8::C => self.c,
            R8::D => self.d,
            R8::E => self.e,
            R8::H => self.h,
            R8::L => self.l,
            R8::H1 => self.h1,
            R8::L1 => self.l1,
            R8::M => mem_at(self.m, self.addr(R16::HL)),
            R8::M1 => mem_at(self.m1, self.addr(R16::HL)),
        }
    }

    /// The state after `val` is loaded into an 8-bit register (or the byte `hl` points at).
    pub open spec fn load8(self, r: R8, val: Option<u8>) -> Self {
        match r {
            R8::A => KR580VM1View { a: val, ..self },
            R8::B => KR580VM1View { b: val, ..self },
            R8::C => KR580VM1View { c: val, ..self },
            R8::D => KR580VM1View { d: val, ..self },
            R8::E => KR580VM1View { e: val, ..self },
            R8::H => KR580VM1View { h: val, ..self },
            R8::L => KR580VM1View { l: val, ..self },
            R8::H1 => KR580VM1View { h1: val, ..self },
            R8::L1 => KR580VM1View { l1: val, ..self },
            R8::M => KR580VM1View { m: mem_write(self.m, self.addr(R16::HL), val), ..self },
            R8::M1 => KR580VM1View { m1: mem_write(self.m1, self.addr(R16::HL), val), ..self },
        }
    }

    /// The state after the given machine cycles and tacts have been counted.
    pub open spec fn count(self, cycles: nat, tacts: nat) -> Self {
        KR580VM1View { cycles: self.cycles + cycles, tacts: self.tacts + tacts, ..self }
    }

    /// The state after the cycles and tacts of the prefix have been counted.
    pub open spec fn count_prefix(self, pfx: Prefix) -> Self {
        self.count(pfx.spec_cycles_tacts().0 as nat, pfx.spec_cycles_tacts().1 as nat)
    }
}

/// The state of a KR580VM1 processor. Registers and memory bytes may be unknown (`None`).
#[derive(Debug)]
pub struct KR580VM1 {
    a: Option<u8>,
    b: RegisterPair,
    d: RegisterPair,
    h: RegisterPair,
    h1: RegisterPair,
    sp: Option<u16>,
    /// MF is the memory bank selection bit
    mf: bool,
    m: HashMap<u16, Option<u8>>,
    m1: HashMap<u16, Option<u8>>,
    tacts: u64,
    cycles: u64,
}

impl View for KR580VM1 {
    type V = KR580VM1View;

    closed spec fn view(&self) -> KR580VM1View {
        KR580VM1View {
            a: self.a,
            b: self.b.high,
            c: self.b.low,
            d: self.d.high,
            e: self.d.low,
            h: self.h.high,
            l: self.h.low,
            h1: self.h1.high,
            l1: self.h1.low,
            sp: self.sp,
            mf: self.mf,
            m: self.m@,
            m1: self.m1@,
            tacts: self.tacts as nat,
            cycles: self.cycles as nat,
        }
    }
}

impl Default for KR580VM1 {
    /// A processor of which nothing is known: every register and every byte of memory unknown.
    fn default() -> (r: Self)
        ensures
            r@.a is None && r@.b is None && r@.c is None && r@.d is None && r@.e is None,
            r@.h is None && r@.l is None && r@.h1 is None && r@.l1 is None && r@.sp is None,
            !r@.mf,
            r@.m == Map::<u16, Option<u8>>::empty(),
            r@.m1 == Map::<u16, Option<u8>>::empty(),
            r@.tacts == 0 && r@.cycles == 0,
    {
        let unknown = RegisterPair { low: None, high: None };
        KR580VM1 {
            a: None,
            b: unknown,
            d: unknown,
            h: unknown,
            h1: unknown,
            sp: None,
            mf: false,
            m: HashMap::new(),
            m1: HashMap::new(),
            tacts: 0,
            cycles: 0,
        }
    }
}

impl KR580VM1 {
    /// The number of clock tacts counted so far.
    pub fn tacts(&self) -> (r: u64)
        ensures
            r == self@.tacts,
    {
        self.tacts
    }

    /// The number of machine cycles counted so far.
    pub fn cycles(&self) -> (r: u64)
        ensures
            r == self@.cycles,
    {
        self.cycles
    }

    fn cycles_tacts(&mut self, ct: (u8, u8))
        requires
            old(self)@.cycles + ct.0 <= u64::MAX,
            old(self)@.tacts + ct.1 <= u64::MAX,
        ensures
            final(self)@ == old(self)@.count(ct.0 as nat, ct.1 as nat),
    {
        self.cycles = self.cycles + ct.0 as u64;
        self.tacts = self.tacts + ct.1 as u64;
    }

    fn set_mf(&mut self, val: bool)
        ensures
            final(self)@ == (KR580VM1View { mf: val, ..old(self)@ }),
    {
        self.mf = val;
    }

    fn read_mem(&self, addr: Option<u16>) -> (r: Option<u8>)
        ensures
            r == mem_at(self@.m, addr),
    {
        if let Some(a) = addr {
            match self.m.get(&a) {
                Some(v) => *v,
                None => None,
            }
        } else {
            None
        }
    }

    fn read_mem1(&self, addr: Option<u16>) -> (r: Option<u8>)
        ensures
            r == mem_at(self@.m1, addr),
    {
        if let Some(a) = addr {
            match self.m1.get(&a) {
                Some(v) => *v,
                None => None,
            }
        } else {
            None
        }
    }

    /// Reads the two bytes at `addr` and the address after it. The address after 0xffff does not
    /// fit in 16 bits.
    fn read16(&self, pfx: Prefix, addr: Option<u16>) -> (r: (Option<u8>, Option<u8>))
        requires
            addr != Some(0xffffu16),
        ensures
            r.0 == self@.read_memp(pfx, addr),
            r.1 == self@.read_memp(pfx, match addr { Some(a) => Some((a + 1) as u16), None => None }),
    {
        let next = match addr {
            Some(a) => Some(a + 1),
            None => None,
        };
        (self.read_memp(pfx, addr), self.read_memp(pfx, next))
    }

    fn read_memp(&self, pfx: Prefix, addr: Option<u16>) -> (r: Option<u8>)
        ensures
            r == self@.read_memp(pfx, addr),
    {
        if pfx.is_mb() {
            self.read_mem1(addr)
        } else {
            self.read_mem(addr)
        }
    }

    fn write_mem(&mut self, addr: Option<u16>, val: Option<u8>)
        ensures
            final(self)@ == (KR580VM1View { m: mem_write(old(self)@.m, addr, val), ..old(self)@ }),
    {
        if let Some(a) = addr {
            self.m.insert(a, val);
        }
    }

    fn write_mem1(&mut self, addr: Option<u16>, val: Option<u8>)
        ensures
            final(self)@ == (KR580VM1View { m1: mem_write(old(self)@.m1, addr, val), ..old(self)@ }),
    {
        if let Some(a) = addr {
            self.m1.insert(a, val);
        }
    }

    fn write_memp(&mut self, pfx: Prefix, addr: Option<u16>, val: Option<u8>)
        ensures
            final(self)@ == old(self)@.write_memp(pfx, addr, val),
    {
        if pfx.is_mb() {
            self.write_mem1(addr, val);
        } else {
            self.write_mem(addr, val);
        }
    }

    fn get_addr(&self, register_pair: R16) -> (r: Option<u16>)
        ensures
            r == self@.addr(register_pair),
    {
        match register_pair {
            R16::BC => self.b.get_u16(),
            R16::DE => self.d.get_u16(),
            R16::HL => self.h.get_u16(),
            R16::H1L1 => self.h1.get_u16(),
            R16::SP => self.sp,
        }
    }

    fn load8(&mut self, reg: R8, val: Option<u8>)
        ensures
            final(self)@ == old(self)@.load8(reg, val),
    {
        match reg {
            R8::A => self.a = val,
            R8::B => self.b.high = val,
            R8::C => self.b.low = val,
            R8::D => self.d.high = val,
            R8::E => self.d.low = val,
            R8::H => self.h.high = val,
            R8::L => self.h.low = val,
            R8::H1 => self.h1.high = val,
            R8::L1 => self.h1.low = val,
            R8::M => {
                let addr = self.get_addr(R16::HL);
                self.write_mem(addr, val);
            },
            R8::M1 => {
                let addr = self.get_addr(R16::HL);
                self.write_mem1(addr, val);
            },
        }
    }

    fn get8(&mut self, reg: R8) -> (r: Option<u8>)
        ensures
            r == old(self)@.get8(reg),
            final(self)@ == old(self)@,
    {
        match reg {
            R8::A => self.a,
            R8::B => self.b.high,
            R8::C => self.b.low,
            R8::D => self.d.high,
            R8::E => self.d.low,
            R8::H => self.h.high,
            R8::L => self.h.low,
            R8::H1 => self.h1.high,
            R8::L1 => self.h1.low,
            R8::M => {
                let addr = self.get_addr(R16::HL);
                self.read_mem(addr)
            },
            R8::M1 => {
                let addr = self.get_addr(R16::HL);
                self.read_mem1(addr)
            },
        }
    }
}

/// A KR580VM1 machine instruction.
#[derive(Clone, Copy, Debug, PartialEq, Eq, Structural)]
pub enum KR580VM1Instruction {
    /// 6.1.1 Данная команда пересылает содержимое устройства-источника в устройство-приемник.
    Mov(Prefix, R8, R8),
    /// 6.1.2 Данная команда пересылает байт непосредственных данных в устройство-приемник.
    Mvi(Prefix, R8, u8),
    /// 6.1.3 Данная команда пересылает два байта непосредственных данных в регистровую память.
    Lxi(Prefix, R16, u8, u8),
    /// 6.1.4 Данная команда пересылает содержимое ячейки памяти в аккумулятор.
    /// Адрес ячейки памяти находится в регистровой паре BC или DE.
    Ldax(Prefix, RegisterPairBorD),
    /// 6.1.5. Данная команда пересылает содержимое аккумулятора в ячейку памяти.
    /// Адрес ячейки памяти находится в регистровой паре BC или DE.
    Stax(Prefix, RegisterPairBorD),
    /// 6.1.6. Данная команда пересылает содержимое ячейки памяти в аккумулятор.
    /// Прямой адрес ячейки памяти находится в коде команды.
    Lda(Prefix, u16),
    /// 6.1.7. Данная команда пересылает содержимое аккумулятора в ячейку памяти.
    /// Прямой адрес ячейки памяти находится в коде команды.
    Sta(Prefix, u16),
    /// 6.1.8. Данная команда пересылает содержимое слова памяти в регистровую пару-указатель.
    /// Прямой адрес слова памяти находится в коде команды.
    Lhld(Prefix, u16),
    /// 6.1.9. Данная команда пересылает содержимое регистровой пары-указателя в слово памяти.
    /// Прямой адрес слова памяти находится в коде команды.
    Shld(Prefix, u16),
    /// 6.1.10. Данная команда пересылает содержимое слова памяти в регистровую пару-указатель.
    /// Адрес слова памяти находится в регистровой паре DE.
    Lhlx(Prefix),
}

impl KR580VM1Instruction {
    /// The instruction's prefix.
    pub open spec fn prefix(self) -> Prefix {
        match self {
            KR580VM1Instruction::Mov(p, _, _) => p,
            KR580VM1Instruction::Mvi(p, _, _) => p,
            KR580VM1Instruction::Lxi(p, _, _, _) => p,
            KR580VM1Instruction::Ldax(p, _) => p,
            KR580VM1Instruction::Stax(p, _) => p,
            KR580VM1Instruction::Lda(p, _) => p,
            KR580VM1Instruction::Sta(p, _) => p,
            KR580VM1Instruction::Lhld(p, _) => p,
            KR580VM1Instruction::Shld(p, _) => p,
            KR580VM1Instruction::Lhlx(p) => p,
        }
    }

    /// True if the program ever uses a KR580VM1 extension (i.e. not Intel 8080 compatible)
    pub fn requires_kr580vm1(self) -> (r: bool)
        ensures
            r == (self.prefix() != Prefix::Unprefixed),
    {
        match self {
            KR580VM1Instruction::Mov(pfx, _, _) => pfx.requires_kr580vm1(),
            KR580VM1Instruction::Mvi(pfx, _, _) => pfx.requires_kr580vm1(),
            KR580VM1Instruction::Lxi(pfx, _, _, _) => pfx.requires_kr580vm1(),
            KR580VM1Instruction::Ldax(pfx, _) => pfx.requires_kr580vm1(),
            KR580VM1Instruction::Stax(pfx, _) => pfx.requires_kr580vm1(),
            KR580VM1Instruction::Shld(pfx, _) => pfx.requires_kr580vm1(),
            KR580VM1Instruction::Lhld(pfx, _) => pfx.requires_kr580vm1(),
            KR580VM1Instruction::Lhlx(pfx) => pfx.requires_kr580vm1(),
            KR580VM1Instruction::Lda(pfx, _) => pfx.requires_kr580vm1(),
            KR580VM1Instruction::Sta(pfx, _) => pfx.requires_kr580vm1(),
        }
    }

    /// The length of the instruction in bytes, its prefix included.
    pub open spec fn spec_length(self) -> int {
        self.prefix().spec_length() + match self {
            KR580VM1Instruction::Lxi(..) | KR580VM1Instruction::Lhld(..) | KR580VM1Instruction::Shld(
                ..,
            ) | KR580VM1Instruction::Lda(..) | KR580VM1Instruction::Sta(..) => 3int,
            _ => 1int,
        }
    }

    /// The length of the instruction in bytes, its prefix included.
    pub fn length(&self) -> (r: usize)
        ensures
            r == self.spec_length(),
    {
        match self {
            KR580VM1Instruction::Mov(pfx, _, _) => pfx.length() + 1,
            KR580VM1Instruction::Mvi(pfx, _, _) => pfx.length() + 1,
            KR580VM1Instruction::Lxi(pfx, _, _, _) => pfx.length() + 3,
            KR580VM1Instruction::Ldax(pfx, _) => pfx.length() + 1,
            KR580VM1Instruction::Stax(pfx, _) => pfx.length() + 1,
            KR580VM1Instruction::Lhld(pfx, _) => pfx.length() + 3,
            KR580VM1Instruction::Lhlx(pfx) => pfx.length() + 1,
            KR580VM1Instruction::Shld(pfx, _) => pfx.length() + 3,
            KR580VM1Instruction::Lda(pfx, _) => pfx.length() + 3,
            KR580VM1Instruction::Sta(pfx, _) => pfx.length() + 3,
        }
    }

    /// The states in which running the instruction stays within the machine: no address past
    /// 0xffff is formed, the `lxi` target is a register pair, and the cycle and tact counters do
    /// not overflow.
    pub open spec fn can_operate(self, s: KR580VM1View) -> bool {
        &&& s.cycles + 8 <= u64::MAX
        &&& s.tacts + 32 <= u64::MAX
        &&& match self {
            KR580VM1Instruction::Shld(_, addr) => addr != 0xffff,
            KR580VM1Instruction::Lhld(_, addr) => addr != 0xffff,
            KR580VM1Instruction::Lhlx(_) => s.addr(R16::DE) != Some(0xffffu16),
            KR580VM1Instruction::Lxi(_, dst, _, _) => dst != R16::SP,
            _ => true,
        }
    }

    /// The state after the instruction runs. The `shld` instruction stores the pointer pair:
    /// `h`/`l`, or `h1`/`l1` under the `rs` prefix.
    pub open spec fn spec_operate(self, s: KR580VM1View) -> KR580VM1View {
        match self {
            KR580VM1Instruction::Shld(pfx, addr) => {
                let (h, l) = if pfx.spec_is_rs() {
                    (s.h1, s.l1)
                } else {
                    (s.h, s.l)
                };
                s.write_memp(pfx, Some(addr), l).write_memp(pfx, Some((addr + 1) as u16), h).count(
                    5,
                    16,
                ).count_prefix(pfx)
            },
            KR580VM1Instruction::Lhld(pfx, addr) => KR580VM1View {
                l: s.read_memp(pfx, Some(addr)),
                h: s.read_memp(pfx, Some((addr + 1) as u16)),
                ..s
            }.count(5, 16).count_prefix(pfx),
            KR580VM1Instruction::Lhlx(pfx) => {
                let de = s.addr(R16::DE);
                let next = match de {
                    Some(a) => Some((a + 1) as u16),
                    None => None,
                };
                KR580VM1View { l: s.read_memp(pfx, de), h: s.read_memp(pfx, next), ..s }.count(
                    3,
                    10,
                ).count_prefix(pfx)
            },
            KR580VM1Instruction::Mov(pfx, dst, src) => {
                let t = s.load8(dst, s.get8(src)).count(1, 5).count_prefix(pfx);
                if dst == R8::M || dst == R8::M1 || src == R8::M || src == R8::M1 {
                    t.count(1, 2)
                } else {
                    t
                }
            },
            KR580VM1Instruction::Mvi(pfx, dst, src) => {
                let t = s.load8(dst, Some(src)).count(2, 7).count_prefix(pfx);
                if dst == R8::M || dst == R8::M1 {
                    t.count(1, 2)
                } else {
                    t
                }
            },
            KR580VM1Instruction::Lxi(_, dst, h, l) => s.load8(dst.spec_split().0, Some(h)).load8(
                dst.spec_split().1,
                Some(l),
            ),
            KR580VM1Instruction::Ldax(pfx, r) => s.load8(
                R8::A,
                s.read_memp(pfx, s.addr(r.spec_r16())),
            ),
            KR580VM1Instruction::Stax(pfx, r) => s.write_memp(pfx, s.addr(r.spec_r16()), s.a),
            KR580VM1Instruction::Lda(pfx, addr) => s.load8(R8::A, s.read_memp(pfx, Some(addr))).count(
                4,
                13,
            ).count_prefix(pfx),
            KR580VM1Instruction::Sta(pfx, addr) => s.write_memp(pfx, Some(addr), s.a).count(
                4,
                13,
            ).count_prefix(pfx),
        }
    }

    /// Runs the instruction on the processor state.
    pub fn operate(&self, s: &mut KR580VM1)
        requires
            self.can_operate(old(s)@),
        ensures
            final(s)@ == self.spec_operate(old(s)@),
    {
        match *self {
            KR580VM1Instruction::Shld(pfx, addr) => s.shld(pfx, addr),
            KR580VM1Instruction::Lhld(pfx, addr) => s.lhld(pfx, addr),
            KR580VM1Instruction::Lhlx(pfx) => s.lhlx(pfx),
            KR580VM1Instruction::Mov(pfx, dst, src) => s.mov(pfx, dst, src),
            KR580VM1Instruction::Mvi(pfx, dst, src) => s.mvi(pfx, dst, src),
            KR580VM1Instruction::Lxi(_pfx, dst, h, l) => {
                s.load8(dst.h(), Some(h));
                s.load8(dst.l(), Some(l));
            },
            KR580VM1Instruction::Ldax(pfx, r) => {
                let addr = s.get_addr(r.r16());
                let r = s.read_memp(pfx, addr);
                s.load8(R8::A, r);
            },
            KR580VM1Instruction::Stax(pfx, r) => {
                let addr = s.get_addr(r.r16());
                let r = s.get8(R8::A);
                s.write_memp(pfx, addr, r);
            },
            KR580VM1Instruction::Lda(pfx, addr) => {
                let r = s.read_memp(pfx, Some(addr));
                s.load8(R8::A, r);
                s.cycles_tacts((4, 13));
                s.cycles_tacts(pfx.cycles_tacts());
            },
            KR580VM1Instruction::Sta(pfx, addr) => {
                let r = s.get8(R8::A);
                s.write_memp(pfx, Some(addr), r);
                s.cycles_tacts((4, 13));
                s.cycles_tacts(pfx.cycles_tacts());
            },
        }
    }
}

impl KR580VM1 {
    fn shld(&mut self, pfx: Prefix, addr: u16)
        requires
            KR580VM1Instruction::Shld(pfx, addr).can_operate(old(self)@),
        ensures
            final(self)@ == KR580VM1Instruction::Shld(pfx, addr).spec_operate(old(self)@),
    {
        let _ptr = self.read16(pfx, Some(addr));
        let (h, l) = if pfx.is_rs() {
            (self.get8(R8::H1), self.get8(R8::L1))
        } else {
            (self.get8(R8::H), self.get8(R8::L))
        };
        self.write_memp(pfx, Some(addr), l);
        self.write_memp(pfx, Some(addr + 1), h);
        self.cycles_tacts((5, 16));
        self.cycles_tacts(pfx.cycles_tacts());
    }

    fn lhld(&mut self, pfx: Prefix, addr: u16)
        requires
            KR580VM1Instruction::Lhld(pfx, addr).can_operate(old(self)@),
        ensures
            final(self)@ == KR580VM1Instruction::Lhld(pfx, addr).spec_operate(old(self)@),
    {
        let ptr = self.read16(pfx, Some(addr));
        self.h.low = ptr.0;
        self.h.high = ptr.1;
        self.cycles_tacts((5, 16));
        self.cycles_tacts(pfx.cycles_tacts());
    }

    fn lhlx(&mut self, pfx: Prefix)
        requires
            KR580VM1Instruction::Lhlx(pfx).can_operate(old(self)@),
        ensures
            final(self)@ == KR580VM1Instruction::Lhlx(pfx).spec_operate(old(self)@),
    {
        let de = self.get_addr(R16::DE);
        let ptr = self.read16(pfx, de);
        self.h.low = ptr.0;
        self.h.high = ptr.1;
        self.cycles_tacts((3, 10));
        self.cycles_tacts(pfx.cycles_tacts());
    }

    fn mov(&mut self, pfx: Prefix, dst: R8, src: R8)
        requires
            KR580VM1Instruction::Mov(pfx, dst, src).can_operate(old(self)@),
        ensures
            final(self)@ == KR580VM1Instruction::Mov(pfx, dst, src).spec_operate(old(self)@),
    {
        let r = self.get8(src);
        self.load8(dst, r);
        self.cycles_tacts((1, 5));
        self.cycles_tacts(pfx.cycles_tacts());
        if dst.is_m() || src.is_m() {
            self.cycles_tacts((1, 2));
        }
    }

    fn mvi(&mut self, pfx: Prefix, dst: R8, src: u8)
        requires
            KR580VM1Instruction::Mvi(pfx, dst, src).can_operate(old(self)@),
        ensures
            final(self)@ == KR580VM1Instruction::Mvi(pfx, dst, src).spec_operate(old(self)@),
    {
        self.load8(dst, Some(src));
        self.cycles_tacts((2, 7));
        self.cycles_tacts(pfx.cycles_tacts());
        if dst.is_m() {
            self.cycles_tacts((1, 2));
        }
    }
}

/// Whether `new` is `old` incremented, decremented or with one bit flipped: what a random
/// mutation of a byte gives.
pub open spec fn byte_mutation(old: u8, new: u8) -> bool {
    new == old.wrapping_add(1) || new == old.wrapping_sub(1) || exists|k: u32|
        k < 8 && new == crate::machine::stm8::flip_bit_u8(old, k)
}

/// Whether `new` is `old` incremented, decremented or with one bit flipped: what a random
/// mutation of a word gives.
pub open spec fn word_mutation(old: u16, new: u16) -> bool {
    new == old + 1 || new == old - 1 || exists|k: u32|
        k < 16 && new == crate::machine::stm8::flip_bit_u16(old, k)
}

impl KR580VM1Instruction {
    /// The text of the instruction as the disassembler writes it.
    pub open spec fn dasm(self) -> Seq<char> {
        seq!['\t'] + self.prefix().name() + match self {
            KR580VM1Instruction::Mov(_, dst, src) => "mov "@ + dst.name() + ", "@ + src.name(),
            KR580VM1Instruction::Mvi(_, dst, src) => "mvi "@ + dst.name() + ", "@ + dec(src as nat),
            KR580VM1Instruction::Lxi(_, dst, h, l) => "lxi "@ + dst.name() + ", "@ + hex_padded(
                h as nat,
                2,
            ) + hex_padded(l as nat, 2) + "h"@,
            KR580VM1Instruction::Ldax(_, rp) => "ldax "@ + rp.name(),
            KR580VM1Instruction::Stax(_, rp) => "stax "@ + rp.name(),
            KR580VM1Instruction::Shld(_, addr) => "shld "@ + hex_padded(addr as nat, 4) + "h"@,
            KR580VM1Instruction::Lhld(_, addr) => "lhld "@ + hex_padded(addr as nat, 4) + "h"@,
            KR580VM1Instruction::Lhlx(_) => "lhlx"@,
            KR580VM1Instruction::Sta(_, addr) => "sta "@ + hex_padded(addr as nat, 4) + "h"@,
            KR580VM1Instruction::Lda(_, addr) => "lda "@ + hex_padded(addr as nat, 4) + "h"@,
        }
    }

    /// Disassembles the instruction.
    #[verifier::spinoff_prover]
    #[verifier::rlimit(40)]
    pub fn to_string(&self) -> (r: String)
        ensures
            r@ == self.dasm(),
    {
        let mut s = String::new();
        push_str(&mut s, "\t");
        proof { reveal_strlit("\t"); }
        match *self {
            KR580VM1Instruction::Mov(pfx, dst, src) => {
                pfx.push_name(&mut s);
                push_str(&mut s, "mov ");
                dst.push_name(&mut s);
                push_str(&mut s, ", ");
                src.push_name(&mut s);
            },
            KR580VM1Instruction::Mvi(pfx, dst, src) => {
                pfx.push_name(&mut s);
                push_str(&mut s, "mvi ");
                dst.push_name(&mut s);
                push_str(&mut s, ", ");
                push_dec(&mut s, src as u32, 1);
            },
            KR580VM1Instruction::Lxi(pfx, dst, h, l) => {
                pfx.push_name(&mut s);
                push_str(&mut s, "lxi ");
                dst.push_name(&mut s);
                push_str(&mut s, ", ");
                push_hex(&mut s, h as u32, 2);
                push_hex(&mut s, l as u32, 2);
                push_str(&mut s, "h");
            },
            KR580VM1Instruction::Ldax(pfx, rp) => {
                pfx.push_name(&mut s);
                push_str(&mut s, "ldax ");
                rp.push_name(&mut s);
            },
            KR580VM1Instruction::Stax(pfx, rp) => {
                pfx.push_name(&mut s);
                push_str(&mut s, "stax ");
                rp.push_name(&mut s);
            },
            KR580VM1Instruction::Shld(pfx, addr) => {
                pfx.push_name(&mut s);
                push_str(&mut s, "shld ");
                push_hex(&mut s, addr as u32, 4);
                push_str(&mut s, "h");
            },
            KR580VM1Instruction::Lhld(pfx, addr) => {
                pfx.push_name(&mut s);
                push_str(&mut s, "lhld ");
                push_hex(&mut s, addr as u32, 4);
                push_str(&mut s, "h");
            },
            KR580VM1Instruction::Lhlx(pfx) => {
                pfx.push_name(&mut s);
                push_str(&mut s, "lhlx");
            },
            KR580VM1Instruction::Sta(pfx, addr) => {
                pfx.push_name(&mut s);
                push_str(&mut s, "sta ");
                push_hex(&mut s, addr as u32, 4);
                push_str(&mut s, "h");
            },
            KR580VM1Instruction::Lda(pfx, addr) => {
                pfx.push_name(&mut s);
                push_str(&mut s, "lda ");
                push_hex(&mut s, addr as u32, 4);
                push_str(&mut s, "h");
            },
        }
        assert(s@ =~= self.dasm());
        s
    }

    /// Whether the instruction's prefix is one that the KR580VM1 accepts for it: any prefix for
    /// `mov`, `mvi`, `lhld`, `lhlx` and `shld`; none or `rs` for `lxi`; none or `mb` for `ldax`,
    /// `stax`, `lda` and `sta`.
    pub open spec fn prefix_allowed(self) -> bool {
        match self {
            KR580VM1Instruction::Lxi(p, _, _, _) => p == Prefix::Unprefixed || p == Prefix::Rs,
            KR580VM1Instruction::Ldax(p, _) | KR580VM1Instruction::Stax(p, _)
            | KR580VM1Instruction::Lda(p, _) | KR580VM1Instruction::Sta(p, _) => p
                == Prefix::Unprefixed || p == Prefix::Mb,
            _ => true,
        }
    }

    /// The instruction built from the draws `d` (see `KR580VM1Draws`): `d.0` picks the kind, in
    /// the order mvi, mov, lxi, ldax, stax, lhld, lhlx, shld, lda, sta; `d.1` the prefix: any of
    /// the four (none, `mb`, `rs`, both) for mvi, mov, lhld, lhlx and shld, and by its parity none
    /// or `rs` for lxi, none or `mb` for ldax, stax, lda and sta; the rest fill the operands.
    pub open spec fn spec_from_draws(d: KR580VM1Draws) -> Self {
        let any = any_prefix(d.1);
        let mb = if d.1 % 2 == 0 { Prefix::Unprefixed } else { Prefix::Mb };
        let rs = if d.1 % 2 == 0 { Prefix::Unprefixed } else { Prefix::Rs };
        if d.0 == 0 {
            KR580VM1Instruction::Mvi(any, d.2, d.6)
        } else if d.0 == 1 {
            KR580VM1Instruction::Mov(any, d.2, d.3)
        } else if d.0 == 2 {
            KR580VM1Instruction::Lxi(rs, d.4, d.6, d.7)
        } else if d.0 == 3 {
            KR580VM1Instruction::Ldax(mb, d.5)
        } else if d.0 == 4 {
            KR580VM1Instruction::Stax(mb, d.5)
        } else if d.0 == 5 {
            KR580VM1Instruction::Lhld(any, d.8)
        } else if d.0 == 6 {
            KR580VM1Instruction::Lhlx(any)
        } else if d.0 == 7 {
            KR580VM1Instruction::Shld(any, d.8)
        } else if d.0 == 8 {
            KR580VM1Instruction::Lda(mb, d.8)
        } else {
            KR580VM1Instruction::Sta(mb, d.8)
        }
    }

    /// Builds the instruction from the draws, as `spec_from_draws` says.
    pub fn from_draws(d: KR580VM1Draws) -> (r: Self)
        requires
            d.0 < 10,
            d.1 < 4,
        ensures
            r == Self::spec_from_draws(d),
            r.prefix_allowed(),
    {
        let any = if d.1 == 0 {
            Prefix::Unprefixed
        } else if d.1 == 1 {
            Prefix::Mb
        } else if d.1 == 2 {
            Prefix::Rs
        } else {
            Prefix::MbRs
        };
        let mb = if d.1 % 2 == 0 { Prefix::Unprefixed } else { Prefix::Mb };
        let rs = if d.1 % 2 == 0 { Prefix::Unprefixed } else { Prefix::Rs };
        match d.0 {
            0 => KR580VM1Instruction::Mvi(any, d.2, d.6),
            1 => KR580VM1Instruction::Mov(any, d.2, d.3),
            2 => KR580VM1Instruction::Lxi(rs, d.4, d.6, d.7),
            3 => KR580VM1Instruction::Ldax(mb, d.5),
            4 => KR580VM1Instruction::Stax(mb, d.5),
            5 => KR580VM1Instruction::Lhld(any, d.8),
            6 => KR580VM1Instruction::Lhlx(any),
            7 => KR580VM1Instruction::Shld(any, d.8),
            8 => KR580VM1Instruction::Lda(mb, d.8),
            _ => KR580VM1Instruction::Sta(mb, d.8),
        }
    }

    /// Returns a random instruction, with a prefix that the instruction accepts: the one built
    /// from random draws.
    pub fn new() -> (r: Self)
        ensures
            r.prefix_allowed(),
            exists|d: KR580VM1Draws| d.0 < 10 && d.1 < 4 && r == #[trigger] Self::spec_from_draws(d),
    {
        let d: KR580VM1Draws = (
            random_below(10),
            random_below(4),
            R8::random(),
            R8::random(),
            R16::random(),
            RegisterPairBorD::random(),
            random_u8(),
            random_u8(),
            random_u16(),
        );
        Self::from_draws(d)
    }

    /// Whether `randomize` may be called: mutating an address of 0 or 0xffff may overflow.
    pub open spec fn can_randomize(self) -> bool {
        match self {
            KR580VM1Instruction::Sta(_, a) | KR580VM1Instruction::Lda(_, a)
            | KR580VM1Instruction::Shld(_, a) | KR580VM1Instruction::Lhld(_, a) => 0 < a < 0xffff,
            _ => true,
        }
    }

    /// What `randomize` may turn `self` into.
    pub open spec fn randomize_outcome(self, new: Self) -> bool {
        match self {
            KR580VM1Instruction::Sta(pfx, addr) => match new {
                KR580VM1Instruction::Sta(p, a) => ((p == Prefix::Unprefixed || p == Prefix::Mb)
                    && a == addr) || (p == pfx && word_mutation(addr, a)),
                _ => false,
            },
            KR580VM1Instruction::Lda(pfx, addr) => match new {
                KR580VM1Instruction::Lda(p, a) => ((p == Prefix::Unprefixed || p == Prefix::Mb)
                    && a == addr) || (p == pfx && word_mutation(addr, a)),
                _ => false,
            },
            KR580VM1Instruction::Shld(pfx, addr) => match new {
                KR580VM1Instruction::Shld(p, a) => a == addr || (p == pfx && word_mutation(
                    addr,
                    a,
                )),
                _ => false,
            },
            KR580VM1Instruction::Lhlx(pfx) => match new {
                KR580VM1Instruction::Lhlx(_) => true,
                KR580VM1Instruction::Lhld(p, _) => p == pfx,
                _ => false,
            },
            KR580VM1Instruction::Lhld(pfx, addr) => match new {
                KR580VM1Instruction::Lhld(p, a) => a == addr || (p == pfx && word_mutation(
                    addr,
                    a,
                )),
                KR580VM1Instruction::Lhlx(p) => p == pfx,
                _ => false,
            },
            KR580VM1Instruction::Mvi(pfx, dst, src) => match new {
                KR580VM1Instruction::Mvi(p, d, v) => p == pfx && ((d == dst && byte_mutation(
                    src,
                    v,
                )) || v == src),
                KR580VM1Instruction::Mov(p, d, _) => p == pfx && d == dst,
                _ => false,
            },
            KR580VM1Instruction::Mov(pfx, dst, src) => match new {
                KR580VM1Instruction::Mov(p, d, v) => p == pfx && (d == dst || v == src),
                KR580VM1Instruction::Mvi(p, d, _) => p == pfx && d == dst,
                _ => false,
            },
            KR580VM1Instruction::Lxi(pfx, dst, h, l) => match new {
                KR580VM1Instruction::Lxi(p, d, nh, nl) => p == pfx && ((d == dst && nh == h
                    && byte_mutation(l, nl)) || (d == dst && nl == l && byte_mutation(h, nh)) || (
                nh == h && nl == l)),
                KR580VM1Instruction::Mvi(p, d, _) => p == pfx && (dst != R16::SP ==> (d
                    == dst.spec_split().0 || d == dst.spec_split().1)),
                _ => false,
            },
            KR580VM1Instruction::Ldax(pfx, _) => match new {
                KR580VM1Instruction::Ldax(p, _) => p == pfx,
                KR580VM1Instruction::Mvi(p, d, _) => p == pfx && d == R8::A,
                KR580VM1Instruction::Mov(p, d, _) => p == pfx && d == R8::A,
                _ => false,
            },
            KR580VM1Instruction::Stax(pfx, _) => match new {
                KR580VM1Instruction::Stax(p, _) => p == pfx,
                _ => false,
            },
        }
    }

    /// Applies a random change to the instruction: to one of its operands, its prefix, or
    /// turning it into a related instruction.
    pub fn randomize(&mut self)
        requires
            old(self).can_randomize(),
        ensures
            old(self).randomize_outcome(*final(self)),
    {
        match *self {
            KR580VM1Instruction::Sta(pfx, addr) => {
                if random_below(2) == 0 {
                    *self = KR580VM1Instruction::Sta(Prefix::mb(), addr);
                } else {
                    let mut a = addr;
                    a.mutate();
                    *self = KR580VM1Instruction::Sta(pfx, a);
                }
            },
            KR580VM1Instruction::Lda(pfx, addr) => {
                if random_below(2) == 0 {
                    *self = KR580VM1Instruction::Lda(Prefix::mb(), addr);
                } else {
                    let mut a = addr;
                    a.mutate();
                    *self = KR580VM1Instruction::Lda(pfx, a);
                }
            },
            KR580VM1Instruction::Shld(pfx, addr) => {
                if random_below(2) == 0 {
                    *self = KR580VM1Instruction::Shld(Prefix::mb_rs(), addr);
                } else {
                    let mut a = addr;
                    a.mutate();
                    *self = KR580VM1Instruction::Shld(pfx, a);
                }
            },
            KR580VM1Instruction::Lhlx(pfx) => {
                if random_below(2) == 0 {
                    *self = KR580VM1Instruction::Lhlx(Prefix::mb_rs());
                } else {
                    *self = KR580VM1Instruction::Lhld(pfx, random_u16());
                }
            },
            KR580VM1Instruction::Lhld(pfx, addr) => {
                let choice = random_below(3);
                if choice == 0 {
                    *self = KR580VM1Instruction::Lhld(Prefix::mb_rs(), addr);
                } else if choice == 1 {
                    let mut a = addr;
                    a.mutate();
                    *self = KR580VM1Instruction::Lhld(pfx, a);
                } else {
                    *self = KR580VM1Instruction::Lhlx(pfx);
                }
            },
            KR580VM1Instruction::Mvi(pfx, dst, src) => {
                let choice = random_below(3);
                if choice == 0 {
                    let mut v = src;
                    v.mutate();
                    *self = KR580VM1Instruction::Mvi(pfx, dst, v);
                } else if choice == 1 {
                    let mut d = dst;
                    d.mutate();
                    *self = KR580VM1Instruction::Mvi(pfx, d, src);
                } else {
                    *self = KR580VM1Instruction::Mov(pfx, dst, R8::random());
                }
            },
            KR580VM1Instruction::Mov(pfx, dst, src) => {
                let choice = random_below(3);
                if choice == 0 {
                    let mut v = src;
                    v.mutate();
                    *self = KR580VM1Instruction::Mov(pfx, dst, v);
                } else if choice == 1 {
                    let mut d = dst;
                    d.mutate();
                    *self = KR580VM1Instruction::Mov(pfx, d, src);
                } else {
                    *self = KR580VM1Instruction::Mvi(pfx, dst, random_u8());
                }
            },
            KR580VM1Instruction::Lxi(pfx, dst, h, l) => {
                let choice = random_below(4);
                if choice == 0 {
                    let mut v = l;
                    v.mutate();
                    *self = KR580VM1Instruction::Lxi(pfx, dst, h, v);
                } else if choice == 1 {
                    let mut v = h;
                    v.mutate();
                    *self = KR580VM1Instruction::Lxi(pfx, dst, v, l);
                } else if choice == 2 {
                    let mut d = dst;
                    d.mutate();
                    *self = KR580VM1Instruction::Lxi(pfx, d, h, l);
                } else {
                    *self = KR580VM1Instruction::Mvi(pfx, dst.pick_one(), random_u8());
                }
            },
            KR580VM1Instruction::Ldax(pfx, rp) => {
                let choice = random_below(3);
                if choice == 0 {
                    let mut r = rp;
                    r.mutate();
                    *self = KR580VM1Instruction::Ldax(pfx, r);
                } else if choice == 1 {
                    *self = KR580VM1Instruction::Mvi(pfx, R8::A, random_u8());
                } else {
                    *self = KR580VM1Instruction::Mov(pfx, R8::A, R8::random());
                }
            },
            KR580VM1Instruction::Stax(pfx, rp) => {
                let mut r = rp;
                r.mutate();
                *self = KR580VM1Instruction::Stax(pfx, r);
            },
        }
    }
}

impl Strop for R8 {
    open spec fn can_mutate(&self) -> bool {
        true
    }

    /// Any of the eleven registers, chosen at random.
    fn random() -> Self {
        match random_below(11) {
            0 => R8::A,
            1 => R8::B,
            2 => R8::C,
            3 => R8::D,
            4 => R8::E,
            5 => R8::H,
            6 => R8::H1,
            7 => R8::L,
            8 => R8::L1,
            9 => R8::M,
            _ => R8::M1,
        }
    }

    fn mutate(&mut self) {
        *self = Self::random();
    }
}

impl Strop for R16 {
    open spec fn can_mutate(&self) -> bool {
        true
    }

    /// Any of the five register pairs, chosen at random.
    fn random() -> Self {
        match random_below(5) {
            0 => R16::BC,
            1 => R16::DE,
            2 => R16::HL,
            3 => R16::H1L1,
            _ => R16::SP,
        }
    }

    fn mutate(&mut self) {
        *self = Self::random();
    }
}

impl Strop for RegisterPairBorD {
    open spec fn can_mutate(&self) -> bool {
        true
    }

    /// Either pair, chosen at random.
    fn random() -> Self {
        match random_below(2) {
            0 => RegisterPairBorD::BC,
            _ => RegisterPairBorD::DE,
        }
    }

    fn mutate(&mut self) {
        *self = Self::random();
    }
}

/// The draws from which `new` builds an instruction: the kind, the prefix, two 8-bit registers,
/// a register pair, one of `bc` and `de`, two bytes and a word.
pub type KR580VM1Draws = (usize, usize, R8, R8, R16, RegisterPairBorD, u8, u8, u16);

/// The prefix that a draw below four picks: none, `mb`, `rs`, or both.
pub open spec fn any_prefix(p: usize) -> Prefix {
    if p == 0 {
        Prefix::Unprefixed
    } else if p == 1 {
        Prefix::Mb
    } else if p == 2 {
        Prefix::Rs
    } else {
        Prefix::MbRs
    }
}

/// Draws from which `new` builds the instruction `i`.
pub open spec fn draws_for(i: KR580VM1Instruction) -> KR580VM1Draws {
    let any = |p: Prefix|
        match p {
            Prefix::Unprefixed => 0usize,
            Prefix::Mb => 1usize,
            Prefix::Rs => 2usize,
            Prefix::MbRs => 3usize,
        };
    let two = |p: Prefix| if p == Prefix::Unprefixed { 0usize } else { 1usize };
    match i {
        KR580VM1Instruction::Mvi(p, r, b) => (0, any(p), r, R8::A, R16::BC, RegisterPairBorD::BC, b, 0, 0),
        KR580VM1Instruction::Mov(p, r1, r2) => (1, any(p), r1, r2, R16::BC, RegisterPairBorD::BC, 0, 0, 0),
        KR580VM1Instruction::Lxi(p, r, b1, b2) => (2, two(p), R8::A, R8::A, r, RegisterPairBorD::BC, b1, b2, 0),
        KR580VM1Instruction::Ldax(p, r) => (3, two(p), R8::A, R8::A, R16::BC, r, 0, 0, 0),
        KR580VM1Instruction::Stax(p, r) => (4, two(p), R8::A, R8::A, R16::BC, r, 0, 0, 0),
        KR580VM1Instruction::Lhld(p, w) => (5, any(p), R8::A, R8::A, R16::BC, RegisterPairBorD::BC, 0, 0, w),
        KR580VM1Instruction::Lhlx(p) => (6, any(p), R8::A, R8::A, R16::BC, RegisterPairBorD::BC, 0, 0, 0),
        KR580VM1Instruction::Shld(p, w) => (7, any(p), R8::A, R8::A, R16::BC, RegisterPairBorD::BC, 0, 0, w),
        KR580VM1Instruction::Lda(p, w) => (8, two(p), R8::A, R8::A, R16::BC, RegisterPairBorD::BC, 0, 0, w),
        KR580VM1Instruction::Sta(p, w) => (9, two(p), R8::A, R8::A, R16::BC, RegisterPairBorD::BC, 0, 0, w),
    }
}

/// Every instruction with a prefix that it accepts is one that `new` can build: some draws give
/// it, and `new` draws every kind, prefix and operand.
pub proof fn lemma_new_reaches_every_allowed_instruction(i: KR580VM1Instruction)
    requires
        i.prefix_allowed(),
    ensures
        draws_for(i).0 < 10,
        draws_for(i).1 < 4,
        KR580VM1Instruction::spec_from_draws(draws_for(i)) == i,
{
}

/// The machine cycles and clock tacts that an instruction takes: its own count (mov 1/5, mvi
/// 2/7, lhld and shld 5/16, lhlx 3/10, lda and sta 4/13), one more cycle and two tacts when a mov
/// or mvi goes through the memory byte (`m` or `m1`), and what its prefix adds; lxi, ldax and
/// stax count nothing.
pub open spec fn cost(i: KR580VM1Instruction) -> (nat, nat) {
    let extra = |m: bool| if m { (1nat, 2nat) } else { (0nat, 0nat) };
    let base: (nat, nat) = match i {
        KR580VM1Instruction::Mov(_, d, s) => {
            let e = extra(d == R8::M || d == R8::M1 || s == R8::M || s == R8::M1);
            (1 + e.0, 5 + e.1)
        },
        KR580VM1Instruction::Mvi(_, d, _) => {
            let e = extra(d == R8::M || d == R8::M1);
            (2 + e.0, 7 + e.1)
        },
        KR580VM1Instruction::Lhld(..) | KR580VM1Instruction::Shld(..) => (5, 16),
        KR580VM1Instruction::Lhlx(..) => (3, 10),
        KR580VM1Instruction::Lda(..) | KR580VM1Instruction::Sta(..) => (4, 13),
        _ => (0, 0),
    };
    match i {
        KR580VM1Instruction::Lxi(..) | KR580VM1Instruction::Ldax(..) | KR580VM1Instruction::Stax(
            ..,
        ) => base,
        _ => (
            base.0 + i.prefix().spec_cycles_tacts().0 as nat,
            base.1 + i.prefix().spec_cycles_tacts().1 as nat,
        ),
    }
}

/// Running an instruction adds its cost to the cycle and tact counters.
pub proof fn lemma_operate_counts(i: KR580VM1Instruction, s: KR580VM1View)
    ensures
        i.spec_operate(s).cycles == s.cycles + cost(i).0,
        i.spec_operate(s).tacts == s.tacts + cost(i).1,
{
}

/// What `randomize` can make of each kind: sta, lda, shld and stax stay what they are; lhld and
/// lhlx may turn into each other; mov and mvi too; lxi may become mvi; ldax may become mvi or
/// mov.
pub open spec fn kind_successor(old: KR580VM1Instruction, new: KR580VM1Instruction) -> bool {
    match old {
        KR580VM1Instruction::Sta(..) => new is Sta,
        KR580VM1Instruction::Lda(..) => new is Lda,
        KR580VM1Instruction::Shld(..) => new is Shld,
        KR580VM1Instruction::Stax(..) => new is Stax,
        KR580VM1Instruction::Lhld(..) | KR580VM1Instruction::Lhlx(..) => new is Lhld || new is Lhlx,
        KR580VM1Instruction::Mov(..) | KR580VM1Instruction::Mvi(..) => new is Mov || new is Mvi,
        KR580VM1Instruction::Lxi(..) => new is Lxi || new is Mvi,
        KR580VM1Instruction::Ldax(..) => new is Ldax || new is Mvi || new is Mov,
    }
}

/// Whatever `randomize` makes of an instruction is of a kind its old kind may become, and sta
/// and lda never gain the `rs` prefix.
pub proof fn lemma_randomize_kinds(old: KR580VM1Instruction, new: KR580VM1Instruction)
    requires
        old.randomize_outcome(new),
    ensures
        kind_successor(old, new),
        (old is Sta || old is Lda) && !old.prefix().spec_is_rs() ==> !new.prefix().spec_is_rs(),
{
}

/// The address that `bc` or `de` holds, when both its halves are known.
pub open spec fn address_in(s: KR580VM1View, r: RegisterPairBorD) -> Option<u16> {
    match r {
        RegisterPairBorD::BC => pair_value(s.b, s.c),
        RegisterPairBorD::DE => pair_value(s.d, s.e),
    }
}

/// `ldax` loads the accumulator from the byte, in the bank its prefix selects, at the address
/// held by the pair it names (`bc` or `de`); nothing else changes, and no cycle is counted.
pub proof fn lemma_ldax_loads_from_the_pair(s: KR580VM1View, pfx: Prefix, r: RegisterPairBorD)
    ensures
        ({
            let t = KR580VM1Instruction::Ldax(pfx, r).spec_operate(s);
            &&& t.a == mem_at(if pfx.spec_is_mb() { s.m1 } else { s.m }, address_in(s, r))
            &&& t == KR580VM1View { a: t.a, ..s }
        }),
{
}

/// `stax` stores the accumulator, in the bank its prefix selects, at the address held by the pair
/// it names, and `ldax` with the same prefix and pair loads it back.
pub proof fn lemma_stax_then_ldax(s: KR580VM1View, pfx: Prefix, r: RegisterPairBorD)
    requires
        address_in(s, r) is Some,
    ensures
        KR580VM1Instruction::Ldax(pfx, r).spec_operate(
            KR580VM1Instruction::Stax(pfx, r).spec_operate(s),
        ).a == s.a,
        ({
            let t = KR580VM1Instruction::Stax(pfx, r).spec_operate(s);
            let a = address_in(s, r)->0;
            &&& (if pfx.spec_is_mb() { t.m1 } else { t.m }) == (if pfx.spec_is_mb() {
                s.m1
            } else {
                s.m
            }).insert(a, s.a)
        }),
{
}

/// Loading a register and then reading it gives back what was loaded (for the byte that `hl`
/// points at, when `hl` is known).
pub proof fn lemma_load_then_get(s: KR580VM1View, r: R8, v: Option<u8>)
    requires
        (r != R8::M && r != R8::M1) || s.addr(R16::HL) is Some,
    ensures
        s.load8(r, v).get8(r) == v,
{
}

/// Storing the accumulator and then loading it from the same address, with the same prefix,
/// gives the accumulator back.
pub proof fn lemma_sta_then_lda(s: KR580VM1View, pfx: Prefix, addr: u16)
    ensures
        KR580VM1Instruction::Lda(pfx, addr).spec_operate(
            KR580VM1Instruction::Sta(pfx, addr).spec_operate(s),
        ).a == s.a,
{
}

/// Storing `hl` with `shld` and loading it back with `lhld` from the same address, with the same
/// prefix, leaves in `hl` the pair that was stored: `hl` itself without the `rs` prefix, `h1l1`
/// under it.
pub proof fn lemma_shld_then_lhld(s: KR580VM1View, pfx: Prefix, addr: u16)
    requires
        addr != 0xffff,
    ensures
        ({
            let t = KR580VM1Instruction::Lhld(pfx, addr).spec_operate(
                KR580VM1Instruction::Shld(pfx, addr).spec_operate(s),
            );
            if pfx.spec_is_rs() {
                t.h == s.h1 && t.l == s.l1
            } else {
                t.h == s.h && t.l == s.l
            }
        }),
{
}

} // verus!
