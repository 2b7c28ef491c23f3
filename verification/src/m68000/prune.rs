//! Ways to prune away 68000 instructions from a search: the registers, offsets, addresses and
//! immediate values that an instruction may use.
use crate::m68000::isa::Insn;
use crate::ConstraintViolation;
use std::ops::Range;
use vstd::prelude::*;

verus! {

/// An addressing mode of the 68000, as the `m68000` crate decodes one: the registers, the
/// displacement, the brief extension word, the address or the immediate value that it holds.
#[derive(Clone, Copy, Debug, PartialEq, Eq, Structural)]
pub enum AddressingMode {
    /// Data Register Direct.
    Drd(u8),
    /// Address Register Direct.
    Ard(u8),
    /// Address Register Indirect.
    Ari(u8),
    /// Address Register Indirect With POstincrement.
    Ariwpo(u8),
    /// Address Register Indirect With PRedecrement.
    Ariwpr(u8),
    /// Address Register Indirect With Displacement (address reg, displacement).
    Ariwd(u8, i16),
    /// Address Register Indirect With Index 8 (address reg, brief extension word).
    Ariwi8(u8, u16),
    /// Absolute Short.
    AbsShort(u16),
    /// Absolute Long.
    AbsLong(u32),
    /// Program Counter Indirect With Displacement (PC value, displacement).
    Pciwd(u32, i16),
    /// Program Counter Indirect With Index 8 (PC value, brief extension word).
    Pciwi8(u32, u16),
    /// Immediate Data.
    Immediate(u32),
}

/// The registers, offsets, addresses and immediate values that instructions may use.
#[derive(Debug)]
pub struct Prune {
    pub data_registers: Vec<u8>,
    pub address_registers: Vec<u8>,
    pub offset_ranges: [Range<i16>; 8],
    pub absolutes: Vec<u32>,
    pub immediate_values: Vec<u32>,
    pub pc_relative_range: Range<i16>,
}

/// Whether `x` lies in the half-open range.
pub open spec fn in_range(r: Range<i16>, x: i16) -> bool {
    r.start <= x < r.end
}

fn holds_u8(v: &Vec<u8>, x: u8) -> (r: bool)
    ensures
        r == v@.contains(x),
{
    let mut k: usize = 0;
    while k < v.len()
        invariant
            k <= v@.len(),
            forall|i: int| 0 <= i < k ==> v@[i] != x,
        decreases v@.len() - k,
    {
        if v[k] == x {
            return true;
        }
        k = k + 1;
    }
    false
}

fn holds_u32(v: &Vec<u32>, x: u32) -> (r: bool)
    ensures
        r == v@.contains(x),
{
    let mut k: usize = 0;
    while k < v.len()
        invariant
            k <= v@.len(),
            forall|i: int| 0 <= i < k ==> v@[i] != x,
        decreases v@.len() - k,
    {
        if v[k] == x {
            return true;
        }
        k = k + 1;
    }
    false
}

impl Prune {
    /// Whether a data register may be used.
    pub fn data_register_allowed(&self, reg_no: u8) -> (r: bool)
        ensures
            r == self.data_registers@.contains(reg_no),
    {
        holds_u8(&self.data_registers, reg_no)
    }

    /// Whether an address register may be used.
    pub fn address_register_allowed(&self, reg_no: u8) -> (r: bool)
        ensures
            r == self.address_registers@.contains(reg_no),
    {
        holds_u8(&self.address_registers, reg_no)
    }

    /// Whether an address register may be used with the given offset.
    pub fn address_register_offset_allowed(&self, reg_no: u8, offset: i16) -> (r: bool)
        requires
            reg_no < 8,
        ensures
            r == in_range(self.offset_ranges[reg_no as int], offset),
    {
        let rng = &self.offset_ranges[reg_no as usize];
        rng.start <= offset && offset < rng.end
    }

    /// Whether an immediate value may be used.
    pub fn immediate_allowed(&self, imm: u32) -> (r: bool)
        ensures
            r == self.immediate_values@.contains(imm),
    {
        holds_u32(&self.immediate_values, imm)
    }

    /// Whether an addressing mode may be used: its registers, offset, address or immediate value
    /// must be allowed. An index with a brief extension word never is.
    pub open spec fn mode_allowed(self, am: AddressingMode) -> bool {
        match am {
            AddressingMode::Drd(reg_no) => self.data_registers@.contains(reg_no),
            AddressingMode::Ard(reg_no) | AddressingMode::Ari(reg_no) | AddressingMode::Ariwpo(
                reg_no,
            ) | AddressingMode::Ariwpr(reg_no) | AddressingMode::Ariwi8(reg_no, _) =>
                self.address_registers@.contains(reg_no),
            AddressingMode::Ariwd(reg_no, offset) => in_range(
                self.offset_ranges[reg_no as int],
                offset,
            ),
            AddressingMode::AbsShort(address) => self.absolutes@.contains(address as u32),
            AddressingMode::AbsLong(address32) => self.absolutes@.contains(address32),
            AddressingMode::Pciwd(_, disp) => in_range(self.pc_relative_range, disp),
            AddressingMode::Pciwi8(_, _) => false,
            AddressingMode::Immediate(imm) => self.immediate_values@.contains(imm),
        }
    }

    /// Checks whether an addressing mode may be used.
    pub fn addressing_mode_allowed(&self, am: AddressingMode) -> (r: bool)
        requires
            am matches AddressingMode::Ariwd(reg_no, _) ==> reg_no < 8,
        ensures
            r == self.mode_allowed(am),
    {
        match am {
            AddressingMode::Drd(reg_no) => self.data_register_allowed(reg_no),
            AddressingMode::Ard(reg_no)
            | AddressingMode::Ari(reg_no)
            | AddressingMode::Ariwpo(reg_no)
            | AddressingMode::Ariwpr(reg_no)
            | AddressingMode::Ariwi8(reg_no, _) => self.address_register_allowed(reg_no),
            AddressingMode::Ariwd(reg_no, offset) => {
                self.address_register_offset_allowed(reg_no, offset)
            },
            AddressingMode::AbsShort(address) => {
                let address32 = address as u32;
                holds_u32(&self.absolutes, address32)
            },
            AddressingMode::AbsLong(address32) => holds_u32(&self.absolutes, address32),
            AddressingMode::Pciwd(_, disp) => {
                self.pc_relative_range.start <= disp && disp < self.pc_relative_range.end
            },
            AddressingMode::Pciwi8(_, _) => false,
            AddressingMode::Immediate(imm) => self.immediate_allowed(imm),
        }
    }
}

/// The operands of a 68000 instruction, as the `m68000` crate decodes them, with what the
/// pruning reads of each form: the registers, addressing modes and values it names. The three
/// forms of `exg` are told apart by their direction; `Other` is a form that the pruning does not
/// know.
#[derive(Clone, Copy, Debug, PartialEq, Eq, Structural)]
pub enum Operands68k {
    /// ILLEGAL, NOP, RESET, RTE, RTR, RTS, TRAPV.
    NoOperands,
    /// ANDI/EORI/ORI to CCR/SR, STOP: the immediate value.
    Immediate(u16),
    /// ADDI, ANDI, CMPI, EORI, ORI, SUBI: the destination and the immediate value.
    SizeEffectiveAddressImmediate(AddressingMode, u32),
    /// BCHG, BCLR, BSET, BTST.
    EffectiveAddressCount(AddressingMode),
    /// JMP, JSR, MOVE to or from SR or CCR, NBCD, PEA, TAS.
    EffectiveAddress(AddressingMode),
    /// CLR, NEG, NEGX, NOT, TST.
    SizeEffectiveAddress(AddressingMode),
    /// CHK, DIVS, DIVU, LEA, MULS, MULU: the data register and the mode.
    RegisterEffectiveAddress(u8, AddressingMode),
    /// MOVEP: the data register, the address register and the displacement.
    RegisterDirectionSizeRegisterDisplacement(u8, u8, i16),
    /// MOVEA: the address register and the mode.
    SizeRegisterEffectiveAddress(u8, AddressingMode),
    /// MOVE: source and destination.
    SizeEffectiveAddressEffectiveAddress(AddressingMode, AddressingMode),
    /// EXG between a data and an address register.
    ExchangeDataAddress(u8, u8),
    /// EXG between two address registers.
    ExchangeAddress(u8, u8),
    /// EXG between two data registers.
    ExchangeData(u8, u8),
    /// EXT: the data register.
    OpmodeRegister(u8),
    /// TRAP.
    Vector,
    /// LINK: the address register.
    RegisterDisplacement(u8),
    /// SWAP, UNLK: the register.
    Register(u8),
    /// MOVE USP: the address register.
    DirectionRegister(u8),
    /// MOVEM.
    DirectionSizeEffectiveAddressList,
    /// ADDQ, SUBQ.
    DataSizeEffectiveAddress(AddressingMode),
    /// Scc.
    ConditionEffectiveAddress(AddressingMode),
    /// DBcc: the data register.
    ConditionRegisterDisplacement(u8),
    /// BRA, BSR.
    Displacement,
    /// Bcc.
    ConditionDisplacement,
    /// MOVEQ: the data register.
    RegisterData(u8),
    /// ADD, AND, CMP, EOR, OR, SUB: the data register and the mode.
    RegisterDirectionSizeEffectiveAddress(u8, AddressingMode),
    /// ABCD, ADDX, SBCD, SUBX: the two registers.
    RegisterSizeModeRegister(u8, u8),
    /// CMPM: the two address registers.
    RegisterSizeRegister(u8, u8),
    /// Register shifts and rotates: the data register.
    RotationDirectionSizeModeRegister(u8),
    /// Memory shifts and rotates.
    DirectionEffectiveAddress(AddressingMode),
    /// A form the pruning does not know.
    Other,
}

/// Whether an address register numbered within the eight is the one an `Ariwd` mode names.
pub open spec fn mode_in_range(am: AddressingMode) -> bool {
    am matches AddressingMode::Ariwd(reg_no, _) ==> reg_no < 8
}

/// Whether the operands name registers the pruning can look up: a known form, with address
/// registers below eight where an offset is checked.
pub open spec fn operands_known(ops: Operands68k) -> bool {
    match ops {
        Operands68k::Other => false,
        Operands68k::SizeEffectiveAddressImmediate(am, _) | Operands68k::EffectiveAddressCount(am)
        | Operands68k::EffectiveAddress(am) | Operands68k::SizeEffectiveAddress(am)
        | Operands68k::RegisterEffectiveAddress(_, am) | Operands68k::SizeRegisterEffectiveAddress(_, am)
        | Operands68k::DataSizeEffectiveAddress(am) | Operands68k::ConditionEffectiveAddress(am)
        | Operands68k::RegisterDirectionSizeEffectiveAddress(_, am)
        | Operands68k::DirectionEffectiveAddress(am) => mode_in_range(am),
        Operands68k::SizeEffectiveAddressEffectiveAddress(a, b) => mode_in_range(a) && mode_in_range(b),
        Operands68k::RegisterDirectionSizeRegisterDisplacement(_, a, _) => a < 8,
        _ => true,
    }
}

impl Prune {
    /// Whether the operands use a register, mode or value that is not allowed. The forms that
    /// the pruning cannot check yet (MOVEM, TRAP, BRA, BSR, Bcc) always count as not allowed.
    pub open spec fn violated(self, ops: Operands68k) -> bool {
        let d = |r: u8| !self.data_registers@.contains(r);
        let a = |r: u8| !self.address_registers@.contains(r);
        let m = |am: AddressingMode| !self.mode_allowed(am);
        match ops {
            Operands68k::NoOperands => false,
            Operands68k::Immediate(imm) => !self.immediate_values@.contains(imm as u32),
            Operands68k::SizeEffectiveAddressImmediate(am, imm) => m(am)
                || !self.immediate_values@.contains(imm),
            Operands68k::EffectiveAddressCount(am) | Operands68k::EffectiveAddress(am)
            | Operands68k::SizeEffectiveAddress(am) | Operands68k::DataSizeEffectiveAddress(am)
            | Operands68k::ConditionEffectiveAddress(am) | Operands68k::DirectionEffectiveAddress(
                am,
            ) => m(am),
            Operands68k::RegisterEffectiveAddress(r, am)
            | Operands68k::RegisterDirectionSizeEffectiveAddress(r, am) => d(r) || m(am),
            Operands68k::RegisterDirectionSizeRegisterDisplacement(dr, ar, offset) => d(dr) || a(ar)
                || !in_range(self.offset_ranges[ar as int], offset),
            Operands68k::SizeRegisterEffectiveAddress(r, am) => a(r) || m(am),
            Operands68k::SizeEffectiveAddressEffectiveAddress(x, y) => m(x) || m(y),
            Operands68k::ExchangeDataAddress(r1, r2) => d(r1) || a(r2),
            Operands68k::ExchangeAddress(r1, r2) | Operands68k::RegisterSizeRegister(r1, r2) => a(r1)
                || a(r2),
            Operands68k::ExchangeData(r1, r2) | Operands68k::RegisterSizeModeRegister(r1, r2) => d(r1)
                || d(r2),
            Operands68k::OpmodeRegister(r) | Operands68k::Register(r)
            | Operands68k::ConditionRegisterDisplacement(r) | Operands68k::RegisterData(r)
            | Operands68k::RotationDirectionSizeModeRegister(r) => d(r),
            Operands68k::RegisterDisplacement(r) | Operands68k::DirectionRegister(r) => a(r),
            Operands68k::DirectionSizeEffectiveAddressList | Operands68k::Vector
            | Operands68k::Displacement | Operands68k::ConditionDisplacement | Operands68k::Other => true,
        }
    }

    /// What the pruning makes of the instruction `t` whose operands are `ops`: accepted when it
    /// uses nothing that is not allowed; otherwise replaced by the next opcode, when there is
    /// one.
    pub open spec fn spec_prune(self, ops: Operands68k, t: Insn) -> ConstraintViolation<Insn> {
        if !self.violated(ops) {
            ConstraintViolation::Satisfied
        } else if t.0[0] > 0xe000 {
            ConstraintViolation::Violation
        } else {
            ConstraintViolation::ReplaceWith(
                Insn([(t.0[0] + 1) as u16, 0u16, 0u16, 0u16, 0u16]),
            )
        }
    }

    /// Whether the operands use something that is not allowed.
    pub fn violates(&self, ops: &Operands68k) -> (r: bool)
        requires
            operands_known(*ops),
        ensures
            r == self.violated(*ops),
    {
        match *ops {
            Operands68k::NoOperands => false,
            Operands68k::Immediate(imm) => !self.immediate_allowed(imm as u32),
            Operands68k::SizeEffectiveAddressImmediate(am, imm) => !self.addressing_mode_allowed(am)
                || !self.immediate_allowed(imm),
            Operands68k::EffectiveAddressCount(am) | Operands68k::EffectiveAddress(am)
            | Operands68k::SizeEffectiveAddress(am) | Operands68k::DataSizeEffectiveAddress(am)
            | Operands68k::ConditionEffectiveAddress(am) | Operands68k::DirectionEffectiveAddress(
                am,
            ) => !self.addressing_mode_allowed(am),
            Operands68k::RegisterEffectiveAddress(r, am)
            | Operands68k::RegisterDirectionSizeEffectiveAddress(r, am) => !self.data_register_allowed(r)
                || !self.addressing_mode_allowed(am),
            Operands68k::RegisterDirectionSizeRegisterDisplacement(dr, ar, offset) => {
                !self.data_register_allowed(dr) || !self.address_register_allowed(ar)
                    || !self.address_register_offset_allowed(ar, offset)
            },
            Operands68k::SizeRegisterEffectiveAddress(r, am) => !self.address_register_allowed(r)
                || !self.addressing_mode_allowed(am),
            Operands68k::SizeEffectiveAddressEffectiveAddress(x, y) => !self.addressing_mode_allowed(x)
                || !self.addressing_mode_allowed(y),
            Operands68k::ExchangeDataAddress(r1, r2) => !self.data_register_allowed(r1)
                || !self.address_register_allowed(r2),
            Operands68k::ExchangeAddress(r1, r2) | Operands68k::RegisterSizeRegister(r1, r2) => {
                !self.address_register_allowed(r1) || !self.address_register_allowed(r2)
            },
            Operands68k::ExchangeData(r1, r2) | Operands68k::RegisterSizeModeRegister(r1, r2) => {
                !self.data_register_allowed(r1) || !self.data_register_allowed(r2)
            },
            Operands68k::OpmodeRegister(r) | Operands68k::Register(r)
            | Operands68k::ConditionRegisterDisplacement(r) | Operands68k::RegisterData(r)
            | Operands68k::RotationDirectionSizeModeRegister(r) => !self.data_register_allowed(r),
            Operands68k::RegisterDisplacement(r) | Operands68k::DirectionRegister(r) => {
                !self.address_register_allowed(r)
            },
            Operands68k::DirectionSizeEffectiveAddressList | Operands68k::Vector
            | Operands68k::Displacement | Operands68k::ConditionDisplacement | Operands68k::Other => true,
        }
    }

    /// Checks the instruction `t`, whose operands as the `m68000` crate decodes them are `ops`:
    /// one that uses something not allowed is replaced by the next opcode, when there is one.
    pub fn prune_operands(&self, ops: &Operands68k, t: &Insn) -> (r: ConstraintViolation<Insn>)
        requires
            operands_known(*ops),
        ensures
            r == self.spec_prune(*ops, *t),
    {
        if self.violates(ops) {
            let mut next = *t;
            match next.next_opcode() {
                Ok(()) => {
                    let ghost w: [u16; 5] = [(t.0[0] + 1) as u16, 0u16, 0u16, 0u16, 0u16];
                    assert(next.0@ =~= seq![(t.0[0] + 1) as u16, 0u16, 0u16, 0u16, 0u16]);
                    assert(next.0 =~= w);
                    ConstraintViolation::ReplaceWith(next)
                },
                Err(_) => ConstraintViolation::Violation,
            }
        } else {
            ConstraintViolation::Satisfied
        }
    }
}

/// The addressing modes that the operands name, source and destination alike.
pub open spec fn modes_named(ops: Operands68k) -> Seq<AddressingMode> {
    match ops {
        Operands68k::SizeEffectiveAddressImmediate(am, _) | Operands68k::EffectiveAddressCount(am)
        | Operands68k::EffectiveAddress(am) | Operands68k::SizeEffectiveAddress(am)
        | Operands68k::RegisterEffectiveAddress(_, am) | Operands68k::SizeRegisterEffectiveAddress(_, am)
        | Operands68k::DataSizeEffectiveAddress(am) | Operands68k::ConditionEffectiveAddress(am)
        | Operands68k::RegisterDirectionSizeEffectiveAddress(_, am)
        | Operands68k::DirectionEffectiveAddress(am) => seq![am],
        Operands68k::SizeEffectiveAddressEffectiveAddress(source, destination) => seq![source, destination],
        _ => seq![],
    }
}

/// The data registers that the operands name outside an addressing mode.
pub open spec fn data_registers_named(ops: Operands68k) -> Seq<u8> {
    match ops {
        Operands68k::RegisterEffectiveAddress(r, _) | Operands68k::RegisterDirectionSizeEffectiveAddress(r, _)
        | Operands68k::RegisterDirectionSizeRegisterDisplacement(r, _, _)
        | Operands68k::ExchangeDataAddress(r, _) | Operands68k::OpmodeRegister(r)
        | Operands68k::Register(r) | Operands68k::ConditionRegisterDisplacement(r)
        | Operands68k::RegisterData(r) | Operands68k::RotationDirectionSizeModeRegister(r) => seq![r],
        Operands68k::ExchangeData(r1, r2) | Operands68k::RegisterSizeModeRegister(r1, r2) => seq![r1, r2],
        _ => seq![],
    }
}

/// The address registers that the operands name outside an addressing mode.
pub open spec fn address_registers_named(ops: Operands68k) -> Seq<u8> {
    match ops {
        Operands68k::RegisterDirectionSizeRegisterDisplacement(_, r, _)
        | Operands68k::SizeRegisterEffectiveAddress(r, _) | Operands68k::ExchangeDataAddress(_, r)
        | Operands68k::RegisterDisplacement(r) | Operands68k::DirectionRegister(r) => seq![r],
        Operands68k::ExchangeAddress(r1, r2) | Operands68k::RegisterSizeRegister(r1, r2) => seq![r1, r2],
        _ => seq![],
    }
}

/// The immediate values that the operands name outside an addressing mode.
pub open spec fn immediates_named(ops: Operands68k) -> Seq<u32> {
    match ops {
        Operands68k::Immediate(imm) => seq![imm as u32],
        Operands68k::SizeEffectiveAddressImmediate(_, imm) => seq![imm],
        _ => seq![],
    }
}

/// Whether the pruning knows how to check the form: not MOVEM, TRAP, BRA, BSR, Bcc or a form
/// it does not know.
pub open spec fn checkable(ops: Operands68k) -> bool {
    !(ops is DirectionSizeEffectiveAddressList || ops is Vector || ops is Displacement
        || ops is ConditionDisplacement || ops is Other)
}

/// An instruction is accepted exactly when its form can be checked and everything its operands
/// name is allowed: every addressing mode (source and destination alike), every data and address
/// register, every immediate value, and the displacement of MOVEP in the range of its address
/// register. Otherwise it is replaced by the next opcode, or refused when there is none.
pub proof fn lemma_accepted_iff_all_named_allowed(p: Prune, ops: Operands68k, t: Insn)
    ensures
        p.spec_prune(ops, t) is Satisfied <==> {
            &&& checkable(ops)
            &&& forall|i: int| 0 <= i < modes_named(ops).len() ==> p.mode_allowed(#[trigger] modes_named(ops)[i])
            &&& forall|i: int| 0 <= i < data_registers_named(ops).len()
                ==> p.data_registers@.contains(#[trigger] data_registers_named(ops)[i])
            &&& forall|i: int| 0 <= i < address_registers_named(ops).len()
                ==> p.address_registers@.contains(#[trigger] address_registers_named(ops)[i])
            &&& forall|i: int| 0 <= i < immediates_named(ops).len()
                ==> p.immediate_values@.contains(#[trigger] immediates_named(ops)[i])
            &&& ops matches Operands68k::RegisterDirectionSizeRegisterDisplacement(_, ar, offset)
                ==> in_range(p.offset_ranges[ar as int], offset)
        },
        !(p.spec_prune(ops, t) is Satisfied) ==> p.spec_prune(ops, t) == (if t.0[0] > 0xe000 {
            ConstraintViolation::Violation
        } else {
            ConstraintViolation::ReplaceWith(Insn([(t.0[0] + 1) as u16, 0u16, 0u16, 0u16, 0u16]))
        }),
{
    let m = modes_named(ops);
    let d = data_registers_named(ops);
    let a = address_registers_named(ops);
    let v = immediates_named(ops);
    match ops {
        Operands68k::SizeEffectiveAddressEffectiveAddress(x, y) => {
            assert(m[0] == x && m[1] == y);
        },
        Operands68k::ExchangeData(r1, r2) | Operands68k::RegisterSizeModeRegister(r1, r2) => {
            assert(d[0] == r1 && d[1] == r2);
        },
        Operands68k::ExchangeAddress(r1, r2) | Operands68k::RegisterSizeRegister(r1, r2) => {
            assert(a[0] == r1 && a[1] == r2);
        },
        Operands68k::ExchangeDataAddress(r1, r2) => {
            assert(d[0] == r1 && a[0] == r2);
        },
        Operands68k::RegisterDirectionSizeRegisterDisplacement(r1, r2, _) => {
            assert(d[0] == r1 && a[0] == r2);
        },
        Operands68k::RegisterEffectiveAddress(r, am) | Operands68k::RegisterDirectionSizeEffectiveAddress(r, am) => {
            assert(d[0] == r && m[0] == am);
        },
        Operands68k::SizeRegisterEffectiveAddress(r, am) => {
            assert(a[0] == r && m[0] == am);
        },
        Operands68k::SizeEffectiveAddressImmediate(am, imm) => {
            assert(m[0] == am && v[0] == imm);
        },
        Operands68k::Immediate(imm) => {
            assert(v[0] == imm as u32);
        },
        Operands68k::EffectiveAddressCount(am) | Operands68k::EffectiveAddress(am)
        | Operands68k::SizeEffectiveAddress(am) | Operands68k::DataSizeEffectiveAddress(am)
        | Operands68k::ConditionEffectiveAddress(am) | Operands68k::DirectionEffectiveAddress(am) => {
            assert(m[0] == am);
        },
        Operands68k::OpmodeRegister(r) | Operands68k::Register(r)
        | Operands68k::ConditionRegisterDisplacement(r) | Operands68k::RegisterData(r)
        | Operands68k::RotationDirectionSizeModeRegister(r) => {
            assert(d[0] == r);
        },
        Operands68k::RegisterDisplacement(r) | Operands68k::DirectionRegister(r) => {
            assert(a[0] == r);
        },
        _ => {},
    }
}

} // verus!
