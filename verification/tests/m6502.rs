use strop::m6502::csp::next_in_ranges;
use strop::m6502::isa::{AddressingMode, Mnemonic};
use strop::m6502::{Cmos6502, Insn, Nmos6502, Prune, RevisionA, Ricoh2a03, Variant6502};
use strop::m6502::emulator::check_step;
use strop::m6502::{Emulator, Subroutine};
use strop::{ConstraintViolation, FixupReason, RunError};

fn check_insn<V: Variant6502>(insn: Insn<V>) {
    insn.decode();
    let mut copy = insn.clone();
    copy.fixup().unwrap();
    assert_eq!(copy.encode(), insn.encode());
}

#[test]
fn first_few() {
    let mut i = Insn::<Cmos6502>::first();
    println!("{} ; {}", i.to_string(), i.debug_string());
    assert!(i.next().is_ok());
    println!("{} ; {}", i.to_string(), i.debug_string());
    assert!(i.next().is_ok());
    println!("{} ; {}", i.to_string(), i.debug_string());
    assert!(i.next().is_ok());
    println!("{} ; {}", i.to_string(), i.debug_string());
    assert!(i.next().is_ok());
}

fn all_instructions<V: Variant6502>() {
    let mut i = Insn::<V>::first();

    let mut count = 0usize;

    while i.next().is_ok() {
        check_insn(i.clone());
        count += 1;
    }
    println!("Iterated over {count} instructions");
}

#[test]
fn all_instructions_cmos() {
    all_instructions::<Cmos6502>();
}

#[test]
fn all_instructions_reva() {
    all_instructions::<RevisionA>();
}

#[test]
fn all_instructions_2a03() {
    all_instructions::<Ricoh2a03>();
}

#[test]
fn all_instructions_nmos() {
    all_instructions::<Nmos6502>();
}

#[test]
fn disassembles_each_addressing_mode() {
    let dasm = |bytes: &[u8]| Insn::<Cmos6502>::new(bytes).to_string();
    assert_eq!(dasm(&[0x0a]), "asl a");
    assert_eq!(dasm(&[0xea]), "nop");
    assert_eq!(dasm(&[0xa9, 0x05]), "lda #$05");
    assert_eq!(dasm(&[0xa5, 0x7f]), "lda $7f");
    assert_eq!(dasm(&[0xb5, 0x10]), "lda $10, x");
    assert_eq!(dasm(&[0xb6, 0x10]), "ldx $10, y");
    assert_eq!(dasm(&[0xd0, 0xfe]), "bne -2");
    assert_eq!(dasm(&[0xd0, 0x05]), "bne 5");
    assert_eq!(dasm(&[0xad, 0x34, 0x12]), "lda $3412");
    assert_eq!(dasm(&[0xbd, 0x34, 0x12]), "lda $3412, x");
    assert_eq!(dasm(&[0xb9, 0x34, 0x12]), "lda $3412, y");
    assert_eq!(dasm(&[0x6c, 0x34, 0x12]), "jmp ($3412)");
    assert_eq!(dasm(&[0xb2, 0x20]), "lda ($20)");
    assert_eq!(dasm(&[0xa1, 0x20]), "lda ($20,x)");
    assert_eq!(dasm(&[0xb1, 0x20]), "lda ($20),y");
    assert_eq!(dasm(&[0x60]), "rts");
    assert_eq!(dasm(&[0x00]), "brk");
    assert_eq!(dasm(&[0x29, 0x0f]), "and #$0f");
    assert_eq!(dasm(&[0xd8]), "cld");
}

#[test]
fn debug_string_lists_the_encoding() {
    assert_eq!(Insn::<Nmos6502>::new(&[0xad, 0x34, 0x12]).debug_string(), "ad 34 12");
    assert_eq!(Insn::<Nmos6502>::new(&[0xa9, 0x0f, 0x12]).debug_string(), "a9 0f");
    assert_eq!(Insn::<Nmos6502>::new(&[0xea, 0x0f, 0x12]).debug_string(), "ea");
}

#[test]
fn decode_and_length() {
    let i = Insn::<Cmos6502>::new(&[0xad, 0x34, 0x12]);
    assert_eq!(i.decode(), (Mnemonic::LDA, AddressingMode::Absolute));
    assert_eq!(i.len(), 3);
    assert_eq!(i.encode(), vec![0xad, 0x34, 0x12]);
    let i = Insn::<Cmos6502>::new(&[0x1a, 0x34, 0x12]);
    assert_eq!(i.decode(), (Mnemonic::INC, AddressingMode::Accumulator));
    assert_eq!(i.len(), 1);
    assert_eq!(i.encode(), vec![0x1a]);
}

#[test]
fn reads_and_writes() {
    let lda = Insn::<Nmos6502>::new(&[0xad, 0x34, 0x12]);
    assert_eq!(lda.address(), Some(0x1234));
    assert_eq!(lda.reads_from(), Some(0x1234));
    assert_eq!(lda.writes_to(), None);
    let sta = Insn::<Nmos6502>::new(&[0x85, 0x10]);
    assert_eq!(sta.reads_from(), None);
    assert_eq!(sta.writes_to(), Some(0x10));
    let inc = Insn::<Nmos6502>::new(&[0xee, 0x00, 0x02]);
    assert_eq!(inc.reads_from(), Some(0x0200));
    assert_eq!(inc.writes_to(), Some(0x0200));
    let asl = Insn::<Nmos6502>::new(&[0x0a]);
    assert_eq!(asl.reads_from(), None);
    assert_eq!(asl.writes_to(), None);
    let jmp = Insn::<Nmos6502>::new(&[0x4c, 0x00, 0x02]);
    assert_eq!(jmp.address(), Some(0x0200));
    assert_eq!(jmp.reads_from(), None);
    assert_eq!(jmp.writes_to(), None);
}

#[test]
fn fixup_skips_unknown_opcodes() {
    let mut i = Insn::<Nmos6502>::new(&[0x02, 0x11, 0x22]);
    assert!(i.fixup().is_ok());
    assert_eq!(i.0, [0x05, 0x11, 0x22]);
    let mut i = Insn::<Cmos6502>::new(&[0x02, 0x11, 0x22]);
    assert!(i.fixup().is_ok());
    assert_eq!(i.0, [0x04, 0x11, 0x22]);
    let mut i = Insn::<RevisionA>::new(&[0x66, 0x11]);
    assert!(i.fixup().is_ok());
    assert_eq!(i.0, [0x68, 0x11, 0x00]);
    let mut i = Insn::<Nmos6502>::new(&[0xff]);
    assert!(i.fixup().is_err());
    assert_eq!(i.0, [0xff, 0x00, 0x00]);
}

#[test]
fn next_steps_through_the_operand() {
    let mut i = Insn::<Nmos6502>::new(&[0xa9, 0x05]);
    assert!(i.next().is_ok());
    assert_eq!(i.0, [0xa9, 0x06, 0x00]);
    let mut i = Insn::<Nmos6502>::new(&[0xa9, 0xff]);
    assert!(i.next().is_ok());
    assert_eq!(i.0, [0xaa, 0x00, 0x00]);
    let mut i = Insn::<Nmos6502>::new(&[0xea]);
    assert!(i.next().is_ok());
    assert_eq!(i.0, [0xec, 0x00, 0x00]);
}

#[test]
fn incr_at_offset_carries_and_wraps() {
    let mut i = Insn::<Nmos6502>::new(&[0x01, 0xff, 0xff]);
    assert!(i.incr_at_offset(2));
    assert_eq!(i.0, [0x02, 0x00, 0x00]);
    let mut i = Insn::<Nmos6502>::new(&[0xff, 0xff, 0xff]);
    assert!(!i.incr_at_offset(2));
    assert_eq!(i.0, [0x00, 0x00, 0x00]);
}

#[test]
fn skip_and_return() {
    let mut i = Insn::<Nmos6502>::new(&[0xad, 0x34, 0x12]);
    assert!(i.skip_to_next_opcode().is_ok());
    assert_eq!(i.0, [0xae, 0x00, 0x00]);
    assert!(Insn::<Nmos6502>::rts().should_return().is_ok());
    assert_eq!(Insn::<Nmos6502>::rts().0, [0x60, 0, 0]);
    let e = i.should_return().unwrap_err();
    assert_eq!(e.offset, 0);
    assert_eq!(e.reason, FixupReason::DoesNotReturn);
}

#[test]
fn next_in_ranges_finds_the_smallest_above() {
    assert_eq!(next_in_ranges(&[5, 3, 9, 7], 4), Some(5));
    assert_eq!(next_in_ranges(&[5, 3, 9, 7], 5), Some(7));
    assert_eq!(next_in_ranges(&[5, 3, 9, 7], 9), None);
    assert_eq!(next_in_ranges(&[], 0), None);
}

#[test]
fn prune_reads() {
    let mut prune = Prune::new();
    let lda = Insn::<Nmos6502>::new(&[0xa5, 0x20]);
    // nothing is readable: propose the next opcode
    match prune.prune(&lda) {
        ConstraintViolation::ReplaceWith(i) => assert_eq!(i.0, [0xa6, 0x00, 0x00]),
        _ => panic!(),
    }
    prune.readable(0x20);
    prune.readable(0x30);
    prune.readable(0x0300);
    assert!(matches!(prune.prune(&lda), ConstraintViolation::Satisfied));
    let lda = Insn::<Nmos6502>::new(&[0xa5, 0x21]);
    match prune.prune(&lda) {
        ConstraintViolation::ReplaceWith(i) => assert_eq!(i.0, [0xa5, 0x30, 0x00]),
        _ => panic!(),
    }
    // the next readable location does not fit in a zero-page operand
    let lda = Insn::<Nmos6502>::new(&[0xa5, 0x31]);
    match prune.prune(&lda) {
        ConstraintViolation::ReplaceWith(i) => assert_eq!(i.0, [0xa6, 0x00, 0x00]),
        _ => panic!(),
    }
    let lda = Insn::<Nmos6502>::new(&[0xad, 0x31, 0x00]);
    match prune.prune(&lda) {
        ConstraintViolation::ReplaceWith(i) => assert_eq!(i.0, [0xad, 0x00, 0x03]),
        _ => panic!(),
    }
    // instructions that do not read from memory are fine
    assert!(matches!(prune.prune(&Insn::<Nmos6502>::new(&[0xea])), ConstraintViolation::Satisfied));
}

#[test]
fn subroutine_that_returns() {
    let mut emu = Emulator::<Nmos6502>::new();
    let s = Subroutine(vec![Insn::<Nmos6502>::new(&[0xa9, 0x05]), Insn::<Nmos6502>::rts()]);
    assert!(s.run(&mut emu).is_ok());
    let mut emu = Emulator::<Cmos6502>::new();
    assert!(emu.run(&[Insn::<Cmos6502>::rts()]).is_ok());
}

#[test]
fn subroutine_that_runs_amok() {
    let mut emu = Emulator::<Nmos6502>::new();
    // jumps out of the subroutine
    let s = [Insn::<Nmos6502>::new(&[0x4c, 0x00, 0x10])];
    assert_eq!(emu.run(&s), Err(RunError::RanAmok));
    // loops for ever
    let mut emu = Emulator::<Nmos6502>::new();
    let s = [Insn::<Nmos6502>::new(&[0x4c, 0x45, 0x23])];
    assert_eq!(emu.run(&s), Err(RunError::RanAmok));
}

#[test]
fn check_step_verdicts() {
    assert_eq!(check_step(0xff, 0xff, 0x5678, 3), Some(Ok(())));
    assert_eq!(check_step(0xff, 0xff, 0x2345, 3), Some(Err(RunError::RanAmok)));
    assert_eq!(check_step(0xff, 0xfd, 0x2349, 3), Some(Err(RunError::RanAmok)));
    assert_eq!(check_step(0xff, 0xfd, 0x2344, 3), Some(Err(RunError::RanAmok)));
    assert_eq!(check_step(0xff, 0xfd, 0x2348, 3), None);
    assert_eq!(check_step(0xff, 0xfd, 0x2345, 3), None);
}

#[test]
fn run_leaves_the_registers_and_memory_of_the_cpu() {
    let mut emu = Emulator::<Nmos6502>::new();
    assert_eq!(emu.registers, (0, 0, 0, 0xff, 0, 0x24));
    let s = Subroutine(vec![
        Insn::<Nmos6502>::new(&[0xa9, 0x05]),
        Insn::<Nmos6502>::new(&[0x8d, 0x00, 0x30]),
        Insn::<Nmos6502>::rts(),
    ]);
    assert_eq!(s.run(&mut emu), Ok(()));
    // lda #5 ; sta $3000 ; rts
    assert_eq!(emu.registers.0, 5);
    assert_eq!(emu.registers.3, 0xff);
    assert_eq!(emu.registers.4, 0x5678);
    assert_eq!(emu.memory[0x3000], 5);
    // the code was written at the subroutine's address, and jsr pushed 0x5677
    assert_eq!(&emu.memory[0x2345..0x234b], &[0xa9, 0x05, 0x8d, 0x00, 0x30, 0x60]);
    assert_eq!((emu.memory[0x1ff], emu.memory[0x1fe]), (0x56, 0x77));
}

#[test]
fn try_run_refuses_code_that_does_not_fit() {
    let mut emu = Emulator::<Nmos6502>::new();
    let long = Subroutine(vec![Insn::<Nmos6502>::new(&[0xad, 0, 0]); 20000]);
    assert_eq!(long.try_run(&mut emu), None);
    assert_eq!(emu.registers, (0, 0, 0, 0xff, 0, 0x24));
    let s = Subroutine(vec![Insn::<Nmos6502>::rts()]);
    assert_eq!(s.try_run(&mut emu), Some(Ok(())));
}

#[test]
fn ok() {
    // A one-instruction subroutine, fixed up to return, runs and returns on a fresh NMOS 6502.
    let mut i = Insn::<Nmos6502>::first();
    assert!(i.should_return().is_err());
    let subroutine = Subroutine(vec![Insn::<Nmos6502>::rts()]);
    let mut emu = Emulator::<Nmos6502>::new();
    assert!(subroutine.run(&mut emu).is_ok());
    i = subroutine.0[0];
    assert!(i.should_return().is_ok());
}
