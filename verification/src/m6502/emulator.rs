//! Running 6502 subroutines on the emulator of the `mos6502` crate.
use crate::m6502::isa::{Insn, Variant6502};
use crate::{RunError, RunResult};
use mos6502::cpu::CPU;
use mos6502::instruction::{Cmos6502, Instruction, Nmos6502, OpInput, RevisionA, Ricoh2a03};
use mos6502::memory::Bus;
use mos6502::memory::Memory;
use mos6502::registers::Status;
use std::marker::PhantomData;
use vstd::prelude::*;

verus! {

/// Where a subroutine returns to.
pub const RETURN_ADDRESS: u16 = 0x5678;

/// Where a subroutine is loaded.
pub const SUBROUTINE_ADDRESS: u16 = 0x2345;

/// How many instructions a subroutine may run before it is judged to have run amok.
pub const STEP_LIMIT: u32 = 1000;

/// The registers of a 6502, as plain values: accumulator, X, Y, stack pointer, program counter
/// and status flags.
pub type Regs6502 = (u8, u8, u8, u8, u16, u8);

/// The registers and memory after `mos6502::cpu::CPU::single_step` on an NMOS 6502 that starts
/// from `regs` and `memory`.
pub uninterp spec fn nmos6502_step(regs: Regs6502, memory: Seq<u8>) -> (Regs6502, Seq<u8>);

/// The same, on a 65C02.
pub uninterp spec fn cmos6502_step(regs: Regs6502, memory: Seq<u8>) -> (Regs6502, Seq<u8>);

/// The same, on an early 6502 without `ror`.
pub uninterp spec fn revision_a_step(regs: Regs6502, memory: Seq<u8>) -> (Regs6502, Seq<u8>);

/// The same, on a Ricoh 2A03.
pub uninterp spec fn ricoh2a03_step(regs: Regs6502, memory: Seq<u8>) -> (Regs6502, Seq<u8>);

/// The registers and memory after `mos6502::cpu::CPU::execute_instruction` runs `jsr address`
/// from `regs` and `memory`.
pub uninterp spec fn m6502_jsr(regs: Regs6502, memory: Seq<u8>, address: u16) -> (Regs6502, Seq<u8>);

/// Runs one instruction with `mos6502::cpu::CPU::single_step` on an NMOS 6502 built from the
/// registers and the 64 KiB of memory, and hands back its registers and memory. The contract
/// names the result; the memory stays 64 KiB long.
#[verifier::external_body]
pub(crate) fn step_nmos(regs: Regs6502, memory: &[u8]) -> (r: (Regs6502, Vec<u8>))
    requires
        memory@.len() == 0x10000,
    ensures
        r.0 == nmos6502_step(regs, memory@).0,
        r.1@ == nmos6502_step(regs, memory@).1,
        r.1@.len() == 0x10000,
{
    let mut m = Memory::new();
    m.set_bytes(0, memory);
    let mut c = CPU::new(m, Nmos6502);
    let (a, x, y, s, p, f) = regs;
    let g = &mut c.registers;
    (g.accumulator, g.index_x, g.index_y, g.program_counter) = (a, x, y, p);
    (g.stack_pointer.0, g.status) = (s, Status::from_bits_retain(f));
    c.single_step();
    let g = c.registers;
    let r = (g.accumulator, g.index_x, g.index_y, g.stack_pointer.0, g.program_counter, g.status.bits());
    (r, (0..=0xffffu16).map(|i| c.memory.get_byte(i)).collect())
}

/// The same with `mos6502::cpu::CPU::single_step` on a 65C02.
#[verifier::external_body]
pub(crate) fn step_cmos(regs: Regs6502, memory: &[u8]) -> (r: (Regs6502, Vec<u8>))
    requires
        memory@.len() == 0x10000,
    ensures
        r.0 == cmos6502_step(regs, memory@).0,
        r.1@ == cmos6502_step(regs, memory@).1,
        r.1@.len() == 0x10000,
{
    let mut m = Memory::new();
    m.set_bytes(0, memory);
    let mut c = CPU::new(m, Cmos6502);
    let (a, x, y, s, p, f) = regs;
    let g = &mut c.registers;
    (g.accumulator, g.index_x, g.index_y, g.program_counter) = (a, x, y, p);
    (g.stack_pointer.0, g.status) = (s, Status::from_bits_retain(f));
    c.single_step();
    let g = c.registers;
    let r = (g.accumulator, g.index_x, g.index_y, g.stack_pointer.0, g.program_counter, g.status.bits());
    (r, (0..=0xffffu16).map(|i| c.memory.get_byte(i)).collect())
}

/// The same with `mos6502::cpu::CPU::single_step` on an early 6502 without `ror`.
#[verifier::external_body]
pub(crate) fn step_revision_a(regs: Regs6502, memory: &[u8]) -> (r: (Regs6502, Vec<u8>))
    requires
        memory@.len() == 0x10000,
    ensures
        r.0 == revision_a_step(regs, memory@).0,
        r.1@ == revision_a_step(regs, memory@).1,
        r.1@.len() == 0x10000,
{
    let mut m = Memory::new();
    m.set_bytes(0, memory);
    let mut c = CPU::new(m, RevisionA);
    let (a, x, y, s, p, f) = regs;
    let g = &mut c.registers;
    (g.accumulator, g.index_x, g.index_y, g.program_counter) = (a, x, y, p);
    (g.stack_pointer.0, g.status) = (s, Status::from_bits_retain(f));
    c.single_step();
    let g = c.registers;
    let r = (g.accumulator, g.index_x, g.index_y, g.stack_pointer.0, g.program_counter, g.status.bits());
    (r, (0..=0xffffu16).map(|i| c.memory.get_byte(i)).collect())
}

/// The same with `mos6502::cpu::CPU::single_step` on a Ricoh 2A03.
#[verifier::external_body]
pub(crate) fn step_ricoh(regs: Regs6502, memory: &[u8]) -> (r: (Regs6502, Vec<u8>))
    requires
        memory@.len() == 0x10000,
    ensures
        r.0 == ricoh2a03_step(regs, memory@).0,
        r.1@ == ricoh2a03_step(regs, memory@).1,
        r.1@.len() == 0x10000,
{
    let mut m = Memory::new();
    m.set_bytes(0, memory);
    let mut c = CPU::new(m, Ricoh2a03);
    let (a, x, y, s, p, f) = regs;
    let g = &mut c.registers;
    (g.accumulator, g.index_x, g.index_y, g.program_counter) = (a, x, y, p);
    (g.stack_pointer.0, g.status) = (s, Status::from_bits_retain(f));
    c.single_step();
    let g = c.registers;
    let r = (g.accumulator, g.index_x, g.index_y, g.stack_pointer.0, g.program_counter, g.status.bits());
    (r, (0..=0xffffu16).map(|i| c.memory.get_byte(i)).collect())
}

/// Executes `jsr address` with `mos6502::cpu::CPU::execute_instruction` on a CPU built from the
/// registers and the 64 KiB of memory, and hands back its registers and memory. (The crate's
/// `jsr` pushes the return address and jumps, the same on every variant, so an NMOS CPU is
/// built.) The contract names the result; the memory stays 64 KiB long.
#[verifier::external_body]
fn jsr(regs: Regs6502, memory: &[u8], address: u16) -> (r: (Regs6502, Vec<u8>))
    requires
        memory@.len() == 0x10000,
    ensures
        r.0 == m6502_jsr(regs, memory@, address).0,
        r.1@ == m6502_jsr(regs, memory@, address).1,
        r.1@.len() == 0x10000,
{
    let mut m = Memory::new();
    m.set_bytes(0, memory);
    let mut c = CPU::new(m, Nmos6502);
    let (a, x, y, s, p, f) = regs;
    let g = &mut c.registers;
    (g.accumulator, g.index_x, g.index_y, g.program_counter) = (a, x, y, p);
    (g.stack_pointer.0, g.status) = (s, Status::from_bits_retain(f));
    c.execute_instruction((Instruction::JSR, OpInput::UseAddress(address)));
    let g = c.registers;
    let r = (g.accumulator, g.index_x, g.index_y, g.stack_pointer.0, g.program_counter, g.status.bits());
    (r, (0..=0xffffu16).map(|i| c.memory.get_byte(i)).collect())
}

/// The machine code of a sequence of instructions: their encodings one after the other.
pub open spec fn encoding<V: Variant6502>(s: Seq<Insn<V>>) -> Seq<u8>
    decreases s.len(),
{
    if s.len() == 0 {
        Seq::empty()
    } else {
        encoding(s.drop_last()) + s.last().bytes().take(s.last().length() as int)
    }
}

/// Encodes a sequence of instructions.
pub fn encode_all<V: Variant6502>(s: &[Insn<V>]) -> (r: Vec<u8>)
    requires
        forall|i: int| 0 <= i < s@.len() ==> #[trigger] s@[i].decodable(),
        encoding(s@).len() <= 0x10000,
    ensures
        r@ == encoding(s@),
{
    let mut v: Vec<u8> = Vec::new();
    let mut k: usize = 0;
    while k < s.len()
        invariant
            k <= s@.len(),
            forall|i: int| 0 <= i < s@.len() ==> #[trigger] s@[i].decodable(),
            v@ == encoding(s@.take(k as int)),
        decreases s@.len() - k,
    {
        let e = s[k].encode();
        let ghost before = v@;
        let mut j: usize = 0;
        while j < e.len()
            invariant
                j <= e@.len(),
                v@ == before + e@.take(j as int),
            decreases e@.len() - j,
        {
            v.push(e[j]);
            j = j + 1;
            assert(v@ =~= before + e@.take(j as int));
        }
        proof {
            let t = s@.take(k + 1);
            assert(t.drop_last() =~= s@.take(k as int));
            assert(t.last() == s@[k as int]);
            assert(e@.take(e@.len() as int) =~= e@);
        }
        k = k + 1;
    }
    assert(s@.take(s@.len() as int) =~= s@);
    v
}

/// What the check after a step of the subroutine finds, from the stack pointer before the call,
/// the stack pointer and program counter now, and the length of the code: with the stack
/// pointer back where it was, the subroutine has returned (to the right place, or it ran amok);
/// with the program counter outside the code, it ran amok; otherwise it runs on.
pub open spec fn verdict(old_sp: u8, sp: u8, pc: u16, len: nat) -> Option<RunResult<()>> {
    if old_sp == sp {
        if pc == RETURN_ADDRESS {
            Some(Ok(()))
        } else {
            Some(Err(RunError::RanAmok))
        }
    } else if pc > SUBROUTINE_ADDRESS + len {
        Some(Err(RunError::RanAmok))
    } else if pc < SUBROUTINE_ADDRESS {
        Some(Err(RunError::RanAmok))
    } else {
        None
    }
}

/// Checks the CPU after a step of the subroutine.
pub fn check_step(old_sp: u8, sp: u8, pc: u16, len: u16) -> (r: Option<RunResult<()>>)
    requires
        SUBROUTINE_ADDRESS + len <= 0xffff,
    ensures
        r == verdict(old_sp, sp, pc, len as nat),
{
    if old_sp == sp {
        if pc == RETURN_ADDRESS {
            // the stack pointer and program counter seem to match what we'd expect for a
            // subroutine that's returned
            return Some(Ok(()));
        } else {
            // the stack underflowed or something
            return Some(Err(RunError::RanAmok));
        }
    }
    if pc > SUBROUTINE_ADDRESS + len {
        // the subroutine branched to outside of itself
        return Some(Err(RunError::RanAmok));
    }
    if pc < SUBROUTINE_ADDRESS {
        // the subroutine branched to outside of itself
        return Some(Err(RunError::RanAmok));
    }
    None
}

/// `memory` with `code` written from `address` on.
pub open spec fn written(memory: Seq<u8>, address: int, code: Seq<u8>) -> Seq<u8> {
    Seq::new(
        memory.len(),
        |i: int| if address <= i < address + code.len() { code[i - address] } else { memory[i] },
    )
}

/// The registers and memory from which a subroutine starts: the program counter at the return
/// address, `jsr` to the subroutine, then its code written in place.
pub open spec fn start_state(regs: Regs6502, memory: Seq<u8>, code: Seq<u8>) -> (Regs6502, Seq<u8>) {
    let called = m6502_jsr(
        (regs.0, regs.1, regs.2, regs.3, RETURN_ADDRESS, regs.5),
        memory,
        SUBROUTINE_ADDRESS,
    );
    (called.0, written(called.1, SUBROUTINE_ADDRESS as int, code))
}

/// What running a subroutine comes to, from the registers and memory after `k` steps: the
/// variant's CPU takes a step, then `verdict` decides, until it ends the run or the step limit
/// is reached (when the subroutine has run amok). Gives the result, then the registers and memory
/// the run leaves.
pub open spec fn run_from<V: Variant6502>(regs: Regs6502, memory: Seq<u8>, old_sp: u8, len: nat, k: nat) -> (
    RunResult<()>,
    Regs6502,
    Seq<u8>,
)
    decreases STEP_LIMIT - k,
{
    if k >= STEP_LIMIT {
        (Err(RunError::RanAmok), regs, memory)
    } else {
        let next = V::stepped(regs, memory);
        match verdict(old_sp, next.0.3, next.0.4, len) {
            Some(r) => (r, next.0, next.1),
            None => run_from::<V>(next.0, next.1, old_sp, len, k + 1),
        }
    }
}

/// A simple 6502 emulator: the registers and 64 KiB of memory of a CPU of the variant `V`.
pub struct Emulator<V: Variant6502> {
    /// Accumulator, X, Y, stack pointer, program counter and status flags.
    pub registers: Regs6502,
    /// The memory.
    pub memory: Vec<u8>,
    /// The variant.
    pub variant: PhantomData<V>,
}

impl<V: Variant6502> Emulator<V> {
    /// Whether the memory is 64 KiB long.
    pub open spec fn wf(&self) -> bool {
        self.memory@.len() == 0x10000
    }

    /// An emulator with zeroed memory and the stack pointer at the top of the stack. The other
    /// registers are as `mos6502::cpu::CPU::new` leaves them: zero, with the status flags holding
    /// the unused bit and the interrupt-disable bit.
    pub fn new() -> (r: Self)
        ensures
            r.wf(),
            r.registers == (0u8, 0u8, 0u8, 0xffu8, 0u16, 0x24u8),
            forall|i: int| 0 <= i < 0x10000 ==> #[trigger] r.memory@[i] == 0,
    {
        Emulator { registers: (0, 0, 0, 0xff, 0, 0x24), memory: vec![0u8; 0x10000], variant: PhantomData }
    }

    /// Runs the subroutine on the emulator: calls it with `jsr` from the return address, then
    /// steps it, checking after each step, until it returns or runs amok, or for a thousand
    /// steps (when it has run amok too).
    pub fn run(&mut self, subroutine: &[Insn<V>]) -> (r: RunResult<()>)
        requires
            old(self).wf(),
            forall|i: int| 0 <= i < subroutine@.len() ==> #[trigger] subroutine@[i].decodable(),
            SUBROUTINE_ADDRESS + encoding(subroutine@).len() <= 0xffff,
        ensures
            final(self).wf(),
            ({
                let start = start_state(old(self).registers, old(self).memory@, encoding(subroutine@));
                let end = run_from::<V>(
                    start.0,
                    start.1,
                    old(self).registers.3,
                    encoding(subroutine@).len(),
                    0,
                );
                &&& r == end.0
                &&& final(self).registers == end.1
                &&& final(self).memory@ == end.2
            }),
    {
        let old_sp = self.registers.3;
        let regs = (self.registers.0, self.registers.1, self.registers.2, self.registers.3, RETURN_ADDRESS, self.registers.5);
        let (called, mut mem) = jsr(regs, self.memory.as_slice(), SUBROUTINE_ADDRESS);
        let code = encode_all(subroutine);
        let ghost before = mem@;
        let mut j: usize = 0;
        while j < code.len()
            invariant
                j <= code@.len(),
                SUBROUTINE_ADDRESS + code@.len() <= 0xffff,
                mem@.len() == 0x10000,
                before.len() == 0x10000,
                forall|i: int|
                    0 <= i < 0x10000 ==> #[trigger] mem@[i] == if SUBROUTINE_ADDRESS <= i < SUBROUTINE_ADDRESS + j {
                        code@[i - SUBROUTINE_ADDRESS]
                    } else {
                        before[i]
                    },
            decreases code@.len() - j,
        {
            mem.set(SUBROUTINE_ADDRESS as usize + j, code[j]);
            j = j + 1;
        }
        assert(mem@ =~= written(before, SUBROUTINE_ADDRESS as int, code@));
        self.registers = called;
        self.memory = mem;
        let len = code.len() as u16;
        let ghost start = (self.registers, self.memory@);
        assert(start == start_state(old(self).registers, old(self).memory@, encoding(subroutine@)));
        let mut k: u32 = 0;
        while k < STEP_LIMIT
            invariant
                SUBROUTINE_ADDRESS + len <= 0xffff,
                len == code@.len(),
                code@ == encoding(subroutine@),
                old_sp == old(self).registers.3,
                start == start_state(old(self).registers, old(self).memory@, encoding(subroutine@)),
                self.wf(),
                k <= STEP_LIMIT,
                run_from::<V>(self.registers, self.memory@, old_sp, len as nat, k as nat)
                    == run_from::<V>(start.0, start.1, old_sp, len as nat, 0),
            decreases STEP_LIMIT - k,
        {
            let ghost prev = (self.registers, self.memory@);
            let (regs, mem) = V::step(self.registers, self.memory.as_slice());
            self.registers = regs;
            self.memory = mem;
            assert(V::stepped(prev.0, prev.1) == (self.registers, self.memory@));
            if let Some(r) = check_step(old_sp, regs.3, regs.4, len) {
                assert(run_from::<V>(prev.0, prev.1, old_sp, len as nat, k as nat) == (
                    r,
                    self.registers,
                    self.memory@,
                ));
                return r;
            }
            k = k + 1;
        }
        Err(RunError::RanAmok)
    }
}

/// A 6502 subroutine: a sequence of instructions.
pub struct Subroutine<V: Variant6502>(pub Vec<Insn<V>>);

impl<V: Variant6502> Subroutine<V> {
    /// Runs the subroutine on a given emulator, as `Emulator::run` does.
    pub fn run(&self, emulator: &mut Emulator<V>) -> (r: RunResult<()>)
        requires
            old(emulator).wf(),
            forall|i: int| 0 <= i < self.0@.len() ==> #[trigger] self.0@[i].decodable(),
            SUBROUTINE_ADDRESS + encoding(self.0@).len() <= 0xffff,
        ensures
            final(emulator).wf(),
            ({
                let start = start_state(old(emulator).registers, old(emulator).memory@, encoding(self.0@));
                let end = run_from::<V>(
                    start.0,
                    start.1,
                    old(emulator).registers.3,
                    encoding(self.0@).len(),
                    0,
                );
                &&& r == end.0
                &&& final(emulator).registers == end.1
                &&& final(emulator).memory@ == end.2
            }),
    {
        emulator.run(self.0.as_slice())
    }

    /// Runs the subroutine when every instruction decodes and the code fits below `0xffff` from
    /// `SUBROUTINE_ADDRESS`; otherwise leaves the emulator alone and answers `None`.
    pub fn try_run(&self, emulator: &mut Emulator<V>) -> (r: Option<RunResult<()>>)
        requires
            old(emulator).wf(),
        ensures
            final(emulator).wf(),
            r is Some <==> ((forall|i: int| 0 <= i < self.0@.len() ==> #[trigger] self.0@[i].decodable())
                && SUBROUTINE_ADDRESS + encoding(self.0@).len() <= 0xffff),
            r is None ==> *final(emulator) == *old(emulator),
            r is Some ==> ({
                let start = start_state(old(emulator).registers, old(emulator).memory@, encoding(self.0@));
                let end = run_from::<V>(
                    start.0,
                    start.1,
                    old(emulator).registers.3,
                    encoding(self.0@).len(),
                    0,
                );
                &&& r->0 == end.0
                &&& final(emulator).registers == end.1
                &&& final(emulator).memory@ == end.2
            }),
    {
        let mut k: usize = 0;
        while k < self.0.len()
            invariant
                k <= self.0@.len(),
                forall|i: int| 0 <= i < k ==> #[trigger] self.0@[i].decodable(),
                *emulator == *old(emulator),
                emulator.wf(),
            decreases self.0@.len() - k,
        {
            if !self.0[k].is_decodable() {
                return None;
            }
            k = k + 1;
        }
        match code_length(self.0.as_slice()) {
            Some(n) => {
                if n <= 0xffff - SUBROUTINE_ADDRESS as usize {
                    Some(self.run(emulator))
                } else {
                    None
                }
            },
            None => None,
        }
    }
}

/// The length of the machine code of the instructions, if it is at most 0x10000 bytes.
fn code_length<V: Variant6502>(s: &[Insn<V>]) -> (r: Option<usize>)
    requires
        forall|i: int| 0 <= i < s@.len() ==> #[trigger] s@[i].decodable(),
    ensures
        r is Some <==> encoding(s@).len() <= 0x10000,
        r is Some ==> r->0 == encoding(s@).len(),
{
    let mut total: usize = 0;
    let mut k: usize = 0;
    while k < s.len()
        invariant
            k <= s@.len(),
            forall|i: int| 0 <= i < s@.len() ==> #[trigger] s@[i].decodable(),
            total == encoding(s@.take(k as int)).len(),
            total <= 0x10000,
        decreases s@.len() - k,
    {
        let n = s[k].len();
        proof {
            let t = s@.take(k + 1);
            assert(t.drop_last() =~= s@.take(k as int));
            assert(t.last() == s@[k as int]);
        }
        if total + n > 0x10000 {
            proof {
                lemma_encoding_grows(s@, k as int + 1);
            }
            return None;
        }
        total = total + n;
        k = k + 1;
    }
    assert(s@.take(s@.len() as int) =~= s@);
    Some(total)
}

/// The code of a sequence is at least as long as that of any prefix of it.
proof fn lemma_encoding_grows<V: Variant6502>(s: Seq<Insn<V>>, k: int)
    requires
        0 <= k <= s.len(),
    ensures
        encoding(s.take(k)).len() <= encoding(s).len(),
    decreases s.len() - k,
{
    if k < s.len() {
        lemma_encoding_grows(s, k + 1);
        let t = s.take(k + 1);
        assert(t.drop_last() =~= s.take(k));
    } else {
        assert(s.take(k) =~= s);
    }
}

} // verus!
