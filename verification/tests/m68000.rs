use std::ops::Range;
use strop::m68000::prune::{AddressingMode, Operands68k};
use strop::m68000::emu::{before_cycle, before_instruction, check_run, check_step};
use strop::m68000::{Emulator, Insn, Prune, Ram};
use strop::RunError;
use strop::FixupReason;
use strop::ConstraintViolation;

#[test]
fn next_opcode_steps_and_stops() {
    let mut i = Insn::new(&[0x1234, 0x5678, 0x9abc]);
    assert!(i.next_opcode().is_ok());
    assert_eq!(i.0, [0x1235, 0, 0, 0, 0]);
    let mut i = Insn::new(&[0xe000, 1]);
    assert!(i.next_opcode().is_ok());
    assert_eq!(i.0, [0xe001, 0, 0, 0, 0]);
    assert!(i.next_opcode().is_err());
    assert_eq!(i.0, [0xe001, 0, 0, 0, 0]);
}

#[test]
fn disassembly_and_validity() {
    let rts = Insn::new(&[0x4e75]);
    assert_eq!(rts.to_string(), "RTS");
    assert!(rts.valid_encoding());
    assert!(rts.should_return(3).is_ok());
    let nop = Insn::new(&[0x4e71]);
    assert!(nop.valid_encoding());
    let e = nop.should_return(3).unwrap_err();
    assert_eq!(e.offset, 3);
    assert_eq!(e.reason, FixupReason::DoesNotReturn);
    assert!(!Insn::new(&[0x4afc]).valid_encoding());
    assert!(!Insn::new(&[0xffff]).valid_encoding() || Insn::new(&[0xffff]).to_string().len() > 0);
    assert!(!Insn::new(&[0x0008]).valid_encoding());
}

#[test]
fn memory_reads_back_what_was_written() {
    let mut m = Ram::new();
    assert_eq!(m.set_word(0x100, 0x1234), Some(()));
    assert_eq!(m.get_word(0x100), Some(0x1234));
    assert_eq!(m.get_byte(0x100), Some(0x12));
    assert_eq!(m.get_byte(0x101), Some(0x34));
    assert_eq!(m.set_byte(0x10000, 1), None);
    assert_eq!(m.get_byte(0x10000), None);
    assert_eq!(m.get_word(0xffff), None);
    assert_eq!(m.set_word(0xffff, 0xabcd), None);
    assert_eq!(m.get_byte(0xffff), Some(0xab));
}

#[test]
fn prune_allows_what_it_was_told() {
    let p = Prune {
        data_registers: vec![0, 1],
        address_registers: vec![7],
        offset_ranges: [0..0, 0..0, -4..4, 0..0, 0..0, 0..0, 0..0, 0..0],
        absolutes: vec![0x1234],
        immediate_values: vec![42],
        pc_relative_range: Range { start: -2, end: 2 },
    };
    assert!(p.data_register_allowed(1));
    assert!(!p.data_register_allowed(2));
    assert!(p.address_register_allowed(7));
    assert!(!p.address_register_allowed(6));
    assert!(p.address_register_offset_allowed(2, -4));
    assert!(!p.address_register_offset_allowed(2, 4));
    assert!(p.immediate_allowed(42));
    assert!(!p.immediate_allowed(43));
    assert!(p.addressing_mode_allowed(AddressingMode::Drd(0)));
    assert!(!p.addressing_mode_allowed(AddressingMode::Drd(3)));
    assert!(p.addressing_mode_allowed(AddressingMode::Ariwpo(7)));
    assert!(p.addressing_mode_allowed(AddressingMode::Ariwd(2, 3)));
    assert!(!p.addressing_mode_allowed(AddressingMode::Ariwd(3, 3)));
    assert!(p.addressing_mode_allowed(AddressingMode::AbsShort(0x1234)));
    assert!(p.addressing_mode_allowed(AddressingMode::AbsLong(0x1234)));
    assert!(!p.addressing_mode_allowed(AddressingMode::AbsLong(0x1235)));
    assert!(p.addressing_mode_allowed(AddressingMode::Pciwd(0, 1)));
    assert!(!p.addressing_mode_allowed(AddressingMode::Pciwi8(0, 0)));
    assert!(p.addressing_mode_allowed(AddressingMode::Immediate(42)));
}

/// Calls a subroutine on the crate's CPU, with the library deciding before and after each
/// instruction.
fn call(emu: &mut Emulator, encoding: &[u16]) -> strop::RunResult<()> {
    let top = emu.cpu.cpu.regs.sp();
    let (first, last) = emu.load_for_call(encoding);
    let mut k = 0;
    loop {
        if let Some(r) = before_instruction(emu.cpu.cpu.regs.pc.0, emu.cpu.cpu.regs.sp(), top, last, k) {
            return r;
        }
        emu.cpu.cpu.interpreter(&mut emu.memory);
        if let Some(r) = check_step(emu.cpu.cpu.regs.pc.0, emu.cpu.cpu.regs.sp(), top, first, last) {
            return r;
        }
        k += 1;
    }
}

#[test]
fn call_subroutine_returns_from_a_lone_rts() {
    let mut emu = Emulator::new();
    assert_eq!(call(&mut emu, &[0x4e75]), Ok(()));
    assert_eq!(emu.memory.get_word(418), Some(0x4e75));
    let mut emu = Emulator::new();
    // the reset vectors are zero here, so the first instruction jumps out of the subroutine
    assert_eq!(call(&mut emu, &[0x4e71, 0x4e75]), Err(RunError::RanAmok));
}

#[test]
fn loading_writes_the_words_in_place() {
    let mut emu = Emulator::new();
    assert_eq!(emu.load_for_call(&[0x4e71, 0x4e75]), (418, 420));
    assert_eq!(emu.memory.get_word(418), Some(0x4e71));
    assert_eq!(emu.memory.get_word(420), Some(0x4e75));
    assert_eq!(emu.memory.get_word(422), Some(0));
    let mut emu = Emulator::new();
    assert_eq!(emu.load_for_run(&[0x7005, 0x4e75]), 0x404);
    assert_eq!(emu.memory.get_word(0x400), Some(0x7005));
    assert_eq!(emu.memory.get_word(0x402), Some(0x4e75));
    assert_eq!(emu.memory.get_word(0), Some(0x0fff));
    assert_eq!(emu.memory.get_word(2), Some(0));
    assert_eq!(emu.memory.get_word(4), Some(0x0400));
    assert_eq!(emu.memory.get_word(6), Some(0));
}

#[test]
fn loop_verdicts() {
    assert_eq!(before_cycle(0x400, 0x0f00, 0x404, 1000), Some(Err(RunError::RanAmok)));
    assert_eq!(before_cycle(0x404, 0x0fff, 0x404, 3), Some(Ok(())));
    assert_eq!(before_cycle(0x400, 0x0f00, 0x404, 3), None);
    assert_eq!(before_instruction(420, 100, 100, 420, 0), Some(Ok(())));
    assert_eq!(before_instruction(420, 98, 100, 420, 0), Some(Err(RunError::RanAmok)));
    assert_eq!(before_instruction(418, 100, 100, 420, 0), None);
    assert_eq!(before_instruction(418, 100, 100, 420, 40000), Some(Err(RunError::RanAmok)));
}

#[test]
fn data_register_0_reads_back() {
    let mut emu = Emulator::new();
    emu.set_d0(0x1234_5678);
    assert_eq!(emu.get_d0(), 0x1234_5678);
}

#[test]
fn run_subroutine_checks() {
    let mut emu = Emulator::new();
    let end = emu.load_for_run(&[0x4e75]);
    assert_eq!(end, 0x402);
    assert_eq!(emu.memory.get_word(0), Some(0x0fff));
    assert_eq!(emu.memory.get_word(4), Some(0x0400));
    assert_eq!(check_run(0x401, 0x0fff, 0x401), Some(Ok(())));
    assert_eq!(check_run(0x400, 0x0ffe, 0x401), Some(Err(RunError::RanAmok)));
    assert_eq!(check_run(0x402, 0x0f00, 0x401), Some(Err(RunError::RanAmok)));
    assert_eq!(check_run(0x400, 0x0f00, 0x401), None);
    assert_eq!(check_step(418, 100, 100, 418, 420), None);
    assert_eq!(check_step(420, 100, 100, 418, 420), Some(Err(RunError::RanAmok)));
    assert_eq!(check_step(418, 101, 100, 418, 420), Some(Err(RunError::RanAmok)));
}

#[test]
fn next_counts_up_within_the_instruction() {
    // ori.b #$ff, d0 is two words long: the immediate word is counted up first.
    let mut i = Insn::new(&[0x0000, 0x00fe]);
    assert!(i.next().is_ok());
    assert_eq!(i.0, [0x0000, 0x00ff, 0, 0, 0]);
    // A full immediate word carries into the opcode.
    let mut i = Insn::new(&[0x0000, 0xffff]);
    assert!(i.next().is_ok());
    assert_eq!(i.0, [0x0001, 0, 0, 0, 0]);
    assert!(i.valid_encoding());
}

#[test]
fn next_skips_opcodes_the_decoder_does_not_know() {
    // nop is one word; the opcodes after it are raised to one the decoder knows.
    let mut i = Insn::new(&[0x4e71]);
    assert!(i.next().is_ok());
    assert!(i.0[0] > 0x4e71);
    assert!(i.valid_encoding());
    let mut j = Insn::new(&[0x4e71]);
    let mut w = 0x4e72u16;
    while w < i.0[0] {
        j.0[0] = w;
        assert!(!j.valid_encoding());
        w += 1;
    }
}

#[test]
fn next_ends_past_the_last_opcode() {
    let mut i = Insn::new(&[0xe001]);
    assert!(i.next().is_err());
    assert_eq!(i.0, [0xe001, 0, 0, 0, 0]);
    let mut i = Insn::new(&[0xe001]);
    assert_eq!(i.checked_next(), Some(Err(strop::StepError::End)));
    let mut i = Insn::new(&[0x4e75]);
    assert_eq!(i.checked_next(), Some(Ok(())));
    assert!(i.valid_encoding());
}

#[test]
fn prune_operands_checks_what_the_operands_name() {
    let p = Prune {
        data_registers: vec![0],
        address_registers: vec![],
        offset_ranges: Default::default(),
        absolutes: vec![],
        immediate_values: vec![42],
        pc_relative_range: 0..0,
    };
    let i = Insn::new(&[0x4840]);
    assert_eq!(p.prune_operands(&Operands68k::Register(0), &i), ConstraintViolation::Satisfied);
    assert_eq!(p.prune_operands(&Operands68k::NoOperands, &i), ConstraintViolation::Satisfied);
    assert_eq!(
        p.prune_operands(&Operands68k::Register(1), &i),
        ConstraintViolation::ReplaceWith(Insn::new(&[0x4841]))
    );
    assert_eq!(
        p.prune_operands(&Operands68k::Vector, &i),
        ConstraintViolation::ReplaceWith(Insn::new(&[0x4841]))
    );
    let imm = Operands68k::SizeEffectiveAddressImmediate(AddressingMode::Drd(0), 42);
    assert_eq!(p.prune_operands(&imm, &i), ConstraintViolation::Satisfied);
    let imm = Operands68k::SizeEffectiveAddressImmediate(AddressingMode::Drd(0), 43);
    assert!(matches!(p.prune_operands(&imm, &i), ConstraintViolation::ReplaceWith(_)));
    let last = Insn::new(&[0xe001]);
    assert_eq!(p.prune_operands(&Operands68k::Register(1), &last), ConstraintViolation::Violation);
}

#[test]
fn nothing_allowed() {
    // With nothing allowed, only instructions without operands are accepted; any other is
    // replaced by the next opcode, until the opcodes run out.
    let prune = Prune {
        data_registers: vec![],
        address_registers: vec![],
        offset_ranges: Default::default(),
        absolutes: vec![],
        immediate_values: vec![],
        pc_relative_range: 0..0,
    };
    let forms = [
        Operands68k::Register(0),
        Operands68k::EffectiveAddress(AddressingMode::Drd(0)),
        Operands68k::Immediate(0),
        Operands68k::ExchangeData(0, 1),
        Operands68k::Displacement,
    ];
    let mut i = Insn::first();
    for ops in forms.iter() {
        match prune.prune_operands(ops, &i) {
            ConstraintViolation::ReplaceWith(next) => {
                assert_eq!(next.0[0], i.0[0] + 1);
                i = next;
            }
            other => panic!("{ops:?} was not replaced: {other:?}"),
        }
    }
    assert_eq!(prune.prune_operands(&Operands68k::NoOperands, &i), ConstraintViolation::Satisfied);
    let last = Insn::new(&[0xe001]);
    assert_eq!(prune.prune_operands(&Operands68k::Register(0), &last), ConstraintViolation::Violation);
}
