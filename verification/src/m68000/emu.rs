//! The 68000 emulator: 64 KiB of big-endian memory, verified here, and the CPU of the `m68000`
//! crate, which runs subroutines out of it.
use crate::{RunError, RunResult};
use vstd::prelude::*;

verus! {

/// The size of the emulated memory, in bytes.
pub const MEM_SIZE: u32 = 65536;

/// The emulator's memory.
#[derive(Debug)]
pub struct Ram(pub [u8; 65536]);

impl Ram {
    /// The bytes of the memory.
    pub open spec fn bytes(&self) -> Seq<u8> {
        self.0@
    }

    /// A memory holding zeros.
    pub fn new() -> (r: Self)
        ensures
            forall|a: int| 0 <= a < MEM_SIZE ==> #[trigger] r.bytes()[a] == 0,
    {
        Ram([0u8; 65536])
    }

    /// The byte at `addr`, if the address is in the memory.
    pub fn get_byte(&self, addr: u32) -> (r: Option<u8>)
        ensures
            addr < MEM_SIZE ==> r == Some(self.bytes()[addr as int]),
            addr >= MEM_SIZE ==> r is None,
    {
        if addr < MEM_SIZE {
            Some(self.0[addr as usize])
        } else {
            None
        }
    }

    /// The big-endian word at `addr`, if both its bytes are in the memory.
    pub fn get_word(&self, addr: u32) -> (r: Option<u16>)
        ensures
            addr + 1 < MEM_SIZE ==> r == Some(
                (self.bytes()[addr as int] * 256 + self.bytes()[addr + 1]) as u16,
            ),
            addr + 1 >= MEM_SIZE ==> r is None,
    {
        let hi = self.get_byte(addr)?;
        if addr == u32::MAX {
            return None;
        }
        let lo = self.get_byte(addr + 1)?;
        Some(hi as u16 * 256 + lo as u16)
    }

    /// Writes the byte at `addr`; fails, changing nothing, when the address is not in the memory.
    pub fn set_byte(&mut self, addr: u32, value: u8) -> (r: Option<()>)
        ensures
            addr < MEM_SIZE ==> r is Some && final(self).bytes() == old(self).bytes().update(
                addr as int,
                value,
            ),
            addr >= MEM_SIZE ==> r is None && final(self).bytes() == old(self).bytes(),
    {
        if addr < MEM_SIZE {
            self.0[addr as usize] = value;
            Some(())
        } else {
            None
        }
    }

    /// Writes the big-endian word at `addr`. When the first byte is in the memory and the second
    /// is not, the first is written before the write fails.
    pub fn set_word(&mut self, addr: u32, value: u16) -> (r: Option<()>)
        ensures
            addr + 1 < MEM_SIZE ==> r is Some && final(self).bytes() == old(self).bytes().update(
                addr as int,
                (value / 256) as u8,
            ).update(addr + 1, (value % 256) as u8),
            addr + 1 == MEM_SIZE ==> r is None && final(self).bytes() == old(self).bytes().update(
                addr as int,
                (value / 256) as u8,
            ),
            addr >= MEM_SIZE ==> r is None && final(self).bytes() == old(self).bytes(),
    {
        self.set_byte(addr, (value / 256) as u8)?;
        if addr == u32::MAX {
            return None;
        }
        self.set_byte(addr + 1, (value % 256) as u8)
    }
}

/// A word written to the memory reads back the same, when both its bytes are in the memory.
pub proof fn lemma_word_read_after_write(before: Seq<u8>, addr: u32, value: u16)
    requires
        before.len() == MEM_SIZE,
        addr + 1 < MEM_SIZE,
    ensures
        ({
            let after = before.update(addr as int, (value / 256) as u8).update(
                addr + 1,
                (value % 256) as u8,
            );
            (after[addr as int] * 256 + after[addr + 1]) as u16 == value
        }),
{
}

impl m68000::MemoryAccess for Ram {
    fn get_byte(&mut self, addr: u32) -> (r: Option<u8>)
        ensures
            addr < MEM_SIZE ==> r == Some(old(self).bytes()[addr as int]),
            addr >= MEM_SIZE ==> r is None,
            *final(self) == *old(self),
    {
        if addr < MEM_SIZE {
            Some(self.0[addr as usize])
        } else {
            None
        }
    }

    fn get_word(&mut self, addr: u32) -> (r: Option<u16>)
        ensures
            addr + 1 < MEM_SIZE ==> r == Some(
                (old(self).bytes()[addr as int] * 256 + old(self).bytes()[addr + 1]) as u16,
            ),
            addr + 1 >= MEM_SIZE ==> r is None,
            *final(self) == *old(self),
    {
        let hi = self.get_byte(addr)?;
        if addr == u32::MAX {
            return None;
        }
        let lo = self.get_byte(addr + 1)?;
        Some(hi as u16 * 256 + lo as u16)
    }

    fn set_byte(&mut self, addr: u32, value: u8) -> (r: Option<()>)
        ensures
            addr < MEM_SIZE ==> r is Some && final(self).bytes() == old(self).bytes().update(
                addr as int,
                value,
            ),
            addr >= MEM_SIZE ==> r is None && final(self).bytes() == old(self).bytes(),
    {
        if addr < MEM_SIZE {
            self.0[addr as usize] = value;
            Some(())
        } else {
            None
        }
    }

    fn set_word(&mut self, addr: u32, value: u16) -> (r: Option<()>)
        ensures
            addr + 1 < MEM_SIZE ==> r is Some && final(self).bytes() == old(self).bytes().update(
                addr as int,
                (value / 256) as u8,
            ).update(addr + 1, (value % 256) as u8),
            addr + 1 == MEM_SIZE ==> r is None && final(self).bytes() == old(self).bytes().update(
                addr as int,
                (value / 256) as u8,
            ),
            addr >= MEM_SIZE ==> r is None && final(self).bytes() == old(self).bytes(),
    {
        self.set_byte(addr, (value / 256) as u8)?;
        if addr == u32::MAX {
            return None;
        }
        self.set_byte(addr + 1, (value % 256) as u8)
    }

    fn reset_instruction(&mut self) {
    }
}

/// The 68000 CPU of the `m68000` crate. Verus sees nothing inside it; the functions below reach
/// it, and the loops that run it stand outside the library.
#[verifier::external_body]
pub struct Cpu68k {
    /// The crate's CPU.
    pub cpu: m68000::M68000<m68000::cpu_details::Mc68000>,
}

/// Makes a CPU with `m68000::M68000::new`, which fetches the reset vectors before its first
/// instruction. Nothing is claimed of the result: the CPU is opaque here.
#[verifier::external_body]
fn new_cpu() -> Cpu68k {
    Cpu68k { cpu: m68000::M68000::new() }
}

/// Sets the program counter.
#[verifier::external_body]
fn set_program_counter(cpu: &mut Cpu68k, pc: u32) {
    cpu.cpu.regs.pc = std::num::Wrapping(pc);
}

/// Sets data register 0.
#[verifier::external_body]
fn set_data_register_0(cpu: &mut Cpu68k, value: u32) {
    cpu.cpu.regs.d[0] = std::num::Wrapping(value);
}

/// Reads data register 0. Nothing is claimed of the value.
#[verifier::external_body]
fn data_register_0(cpu: &Cpu68k) -> u32 {
    cpu.cpu.regs.d[0].0
}

/// How many cycles a subroutine run by the reset vector may take before it has run amok.
pub const RUN_CYCLE_LIMIT: u32 = 1000;

/// How many instructions a called subroutine may run before it has run amok.
pub const CALL_STEP_LIMIT: u32 = 40000;

/// Where `run_subroutine` loads a subroutine.
pub const SUBROUTINE_START: u32 = 0x0400;

/// The stack pointer that `run_subroutine` sets in the reset vector.
pub const INITIAL_STACK_POINTER: u32 = 0x0fff;

/// Where `call_subroutine` loads a subroutine.
pub const START_ADDRESS: u32 = 418;

/// What `run_subroutine` finds before each step, from the program counter, the system stack
/// pointer, and the end of the subroutine: with the program counter at the end and the stack
/// pointer where it started, the subroutine has returned; with the stack pointer above where it
/// started (less one word), or the program counter past the end, it ran amok; otherwise it runs
/// on.
pub open spec fn run_verdict(pc: u32, sp: u32, end: u32) -> Option<RunResult<()>> {
    if pc == end && sp == INITIAL_STACK_POINTER {
        Some(Ok(()))
    } else if sp > INITIAL_STACK_POINTER - 2 {
        Some(Err(RunError::RanAmok))
    } else if pc > end {
        Some(Err(RunError::RanAmok))
    } else {
        None
    }
}

/// Checks the CPU before a step of `run_subroutine`.
pub fn check_run(pc: u32, sp: u32, end: u32) -> (r: Option<RunResult<()>>)
    ensures
        r == run_verdict(pc, sp, end),
{
    if pc == end && sp == INITIAL_STACK_POINTER {
        // Expected values for PC and SP mean that the subroutine is about to return
        return Some(Ok(()));
    }
    if sp > INITIAL_STACK_POINTER - 2 {
        // Stack underflow; this is not going to go well.
        return Some(Err(RunError::RanAmok));
    }
    if pc > end {
        // the program counter is out of bounds; the subroutine seems to have run amok
        return Some(Err(RunError::RanAmok));
    }
    None
}

/// What `call_subroutine` finds after each instruction, from the program counter, the stack
/// pointer, the stack pointer before the call, and the addresses of the first and last
/// instructions: a program counter outside the instructions before the last, or a stack pointer
/// above where it started, means that the subroutine ran amok.
pub open spec fn step_verdict(pc: u32, sp: u32, top: u32, first: u32, last: u32) -> Option<
    RunResult<()>,
> {
    if !(first <= pc < last) {
        Some(Err(RunError::RanAmok))
    } else if sp > top {
        Some(Err(RunError::RanAmok))
    } else {
        None
    }
}

/// Checks the CPU after an instruction of `call_subroutine`.
pub fn check_step(pc: u32, sp: u32, top: u32, first: u32, last: u32) -> (r: Option<RunResult<()>>)
    ensures
        r == step_verdict(pc, sp, top, first, last),
{
    if !(first <= pc && pc < last) {
        // The subroutine has jumped to outside of itself.
        return Some(Err(RunError::RanAmok));
    }
    if sp > top {
        // The subroutine has underflowed the stack
        return Some(Err(RunError::RanAmok));
    }
    None
}

/// The 68000 emulator.
pub struct Emulator {
    /// The machine
    pub memory: Ram,
    /// The CPU
    pub cpu: Cpu68k,
}

impl Emulator {
    /// An emulator with zeroed memory and a CPU about to take its reset.
    pub fn new() -> (r: Self)
        ensures
            forall|a: int| 0 <= a < MEM_SIZE ==> #[trigger] r.memory.bytes()[a] == 0,
    {
        Emulator { memory: Ram::new(), cpu: new_cpu() }
    }

    /// Sets data register 0, where a subroutine takes its argument.
    pub fn set_d0(&mut self, value: u32)
        ensures
            final(self).memory == old(self).memory,
    {
        set_data_register_0(&mut self.cpu, value);
    }

    /// Reads data register 0, where a subroutine leaves its result.
    pub fn get_d0(&self) -> u32 {
        data_register_0(&self.cpu)
    }

    /// Loads a subroutine to be run through the reset vector: its words one after the other
    /// from `SUBROUTINE_START`, then the reset vector (the stack pointer `INITIAL_STACK_POINTER`
    /// and the program counter `SUBROUTINE_START`) in the first eight bytes. Gives back the
    /// address after the subroutine, where it is to return.
    pub fn load_for_run(&mut self, encoding: &[u16]) -> (end: u32)
        requires
            SUBROUTINE_START + 2 * encoding@.len() + 1 < MEM_SIZE,
        ensures
            end == SUBROUTINE_START + 2 * encoding@.len(),
            final(self).memory.bytes() == words_written(
                words_written(old(self).memory.bytes(), SUBROUTINE_START as int, encoding@),
                0,
                seq![INITIAL_STACK_POINTER as u16, 0u16, SUBROUTINE_START as u16, 0u16],
            ),
    {
        write_words(&mut self.memory, SUBROUTINE_START, encoding);
        let vector: [u16; 4] = [INITIAL_STACK_POINTER as u16, 0, SUBROUTINE_START as u16, 0];
        assert(vector@ =~= seq![INITIAL_STACK_POINTER as u16, 0u16, SUBROUTINE_START as u16, 0u16]);
        write_words(&mut self.memory, 0, vector.as_slice());
        SUBROUTINE_START + 2 * encoding.len() as u32
    }

    /// Loads a subroutine to be called: its words one after the other from `START_ADDRESS`, with
    /// the program counter pointed at the first. Gives back the addresses of its first and last
    /// instructions.
    pub fn load_for_call(&mut self, encoding: &[u16]) -> (r: (u32, u32))
        requires
            encoding@.len() >= 1,
            START_ADDRESS + 2 * encoding@.len() <= MEM_SIZE,
        ensures
            r == (START_ADDRESS, (START_ADDRESS + 2 * (encoding@.len() - 1)) as u32),
            final(self).memory.bytes() == words_written(
                old(self).memory.bytes(),
                START_ADDRESS as int,
                encoding@,
            ),
    {
        write_words(&mut self.memory, START_ADDRESS, encoding);
        set_program_counter(&mut self.cpu, START_ADDRESS);
        (START_ADDRESS, START_ADDRESS + ((encoding.len() - 1) * 2) as u32)
    }
}

/// `memory` with `words` written big-endian, one after the other, from `at` on.
pub open spec fn words_written(memory: Seq<u8>, at: int, words: Seq<u16>) -> Seq<u8> {
    Seq::new(
        memory.len(),
        |i: int|
            if at <= i < at + 2 * words.len() {
                if (i - at) % 2 == 0 {
                    (words[(i - at) / 2] / 256) as u8
                } else {
                    (words[(i - at) / 2] % 256) as u8
                }
            } else {
                memory[i]
            },
    )
}

/// Writes the words one after the other from `at` on.
fn write_words(memory: &mut Ram, at: u32, words: &[u16])
    requires
        at + 2 * words@.len() <= MEM_SIZE,
        old(memory).bytes().len() == MEM_SIZE,
    ensures
        final(memory).bytes() == words_written(old(memory).bytes(), at as int, words@),
{
    let ghost before = memory.bytes();
    let mut k: usize = 0;
    assert(memory.bytes() =~= words_written(before, at as int, words@.take(0)));
    while k < words.len()
        invariant
            at + 2 * words@.len() <= MEM_SIZE,
            k <= words@.len(),
            before.len() == MEM_SIZE,
            memory.bytes() == words_written(before, at as int, words@.take(k as int)),
        decreases words@.len() - k,
    {
        let a = at + 2 * k as u32;
        let ghost prev = memory.bytes();
        let _ = memory.set_word(a, words[k]);
        proof {
            let t = words@.take(k + 1);
            let w = words@[k as int];
            assert forall|i: int| 0 <= i < MEM_SIZE implies #[trigger] memory.bytes()[i]
                == words_written(before, at as int, t)[i] by {
                if at <= i < at + 2 * k {
                    assert(t[(i - at) / 2] == words@.take(k as int)[(i - at) / 2]);
                } else if i == a {
                    assert((i - at) / 2 == k && (i - at) % 2 == 0);
                } else if i == a + 1 {
                    assert((i - at) / 2 == k && (i - at) % 2 == 1);
                }
            }
            assert(memory.bytes() =~= words_written(before, at as int, t));
        }
        k = k + 1;
    }
    assert(words@.take(words@.len() as int) =~= words@);
}

/// What the loop that runs a subroutine through the reset vector decides before each cycle,
/// after `k` cycles: past the cycle limit the subroutine has run amok; otherwise `run_verdict`
/// decides.
pub fn before_cycle(pc: u32, sp: u32, end: u32, k: u32) -> (r: Option<RunResult<()>>)
    ensures
        r == (if k >= RUN_CYCLE_LIMIT {
            Some(Err::<(), RunError>(RunError::RanAmok))
        } else {
            run_verdict(pc, sp, end)
        }),
{
    if k >= RUN_CYCLE_LIMIT {
        return Some(Err(RunError::RanAmok));
    }
    check_run(pc, sp, end)
}

/// What the loop that calls a subroutine decides before each instruction, after `k`
/// instructions: past the step limit the subroutine has run amok; at the last instruction it
/// has returned when the stack pointer is back where it was, and run amok otherwise.
pub open spec fn call_verdict(pc: u32, sp: u32, top: u32, last: u32, k: u32) -> Option<RunResult<()>> {
    if k >= CALL_STEP_LIMIT {
        Some(Err(RunError::RanAmok))
    } else if pc == last {
        if sp != top {
            Some(Err(RunError::RanAmok))
        } else {
            Some(Ok(()))
        }
    } else {
        None
    }
}

/// Checks the CPU before an instruction of a called subroutine.
pub fn before_instruction(pc: u32, sp: u32, top: u32, last: u32, k: u32) -> (r: Option<RunResult<()>>)
    ensures
        r == call_verdict(pc, sp, top, last, k),
{
    if k >= CALL_STEP_LIMIT {
        return Some(Err(RunError::RanAmok));
    }
    if pc == last {
        if sp != top {
            // the stack either underflowed at the last minute or things have been left on there
            return Some(Err(RunError::RanAmok));
        }
        return Some(Ok(()));
    }
    None
}

} // verus!
