use strop::machine::kr580vm1::KR580VM1Instruction;
use strop::machine::kr580vm1::Prefix;
use strop::machine::kr580vm1::KR580VM1;
use strop::machine::kr580vm1::R8;
use strop::machine::kr580vm1::R16;
use strop::machine::kr580vm1::RegisterPairBorD;

fn find_it(opcode: &'static str) -> KR580VM1Instruction {
    for _ in 0..5000 {
        let insn = KR580VM1Instruction::new();
        let dasm = insn.to_string();
        if dasm.trim().starts_with(opcode) {
            return insn;
        }
    }
    panic!("Could not find opcode {}", opcode);
}

fn dont_find_it(opcode: &'static str) {
    // Use this function to assert that an instruction does not exist in the KR580VM1.
    for _ in 0..5000 {
        let insn = KR580VM1Instruction::new();
        let dasm = insn.to_string();
        if dasm.trim().starts_with(opcode) {
            panic!("this instruction shouldn't exist {:?}", insn);
        }
    }
}

/// Miscellaneous checks for a KR580VM1Instruction object.
/// Asserts that the requires_kr580vm1 method returns the expected result
/// Runs the instruction and checks that the correct number of cycles and tacts have been added
fn test_insn(insn: KR580VM1Instruction, cycles: u64, tacts: u64, req_kr: bool) {
    if req_kr {
        assert!(
            insn.requires_kr580vm1(),
            "The instruction '{}' should report as requiring the KR580VM1 extension",
            insn.to_string()
        );
    } else {
        assert!(
            !insn.requires_kr580vm1(),
            "The instruction '{}' should not report as requiring the KR580VM1 extension",
            insn.to_string()
        );
    }

    let mut state = KR580VM1::default();
    insn.operate(&mut state);

    assert_eq!(state.cycles(), cycles);
    assert_eq!(state.tacts(), tacts);
}

#[test]
fn mov() {
    assert!(find_it("mb rs mov").requires_kr580vm1());
    assert!(find_it("mb mov").requires_kr580vm1());
    assert!(find_it("rs mov").requires_kr580vm1());
    assert!(!find_it("mov").requires_kr580vm1());

    let mov_a_d = KR580VM1Instruction::Mov(Prefix::Unprefixed, R8::A, R8::D);
    assert_eq!(mov_a_d.to_string(), "\tmov a, d");
    test_insn(mov_a_d, 1, 5, false);

    let rs_mov_a_d = KR580VM1Instruction::Mov(Prefix::Rs, R8::A, R8::D);
    assert_eq!(rs_mov_a_d.to_string(), "\trs mov a, d");
    test_insn(rs_mov_a_d, 2, 9, true);

    let mb_rs_mov_a_d = KR580VM1Instruction::Mov(Prefix::MbRs, R8::A, R8::D);
    assert_eq!(mb_rs_mov_a_d.to_string(), "\tmb rs mov a, d");
    test_insn(mb_rs_mov_a_d, 3, 13, true);

    let mov_a_mem = KR580VM1Instruction::Mov(Prefix::Unprefixed, R8::A, R8::M);
    assert_eq!(mov_a_mem.to_string(), "\tmov a, m");
    test_insn(mov_a_mem, 2, 7, false);
}

#[test]
fn mvi() {
    assert!(find_it("mb rs mvi").requires_kr580vm1());
    assert!(find_it("mb mvi").requires_kr580vm1());
    assert!(find_it("rs mvi").requires_kr580vm1());
    assert!(!find_it("mvi").requires_kr580vm1());

    let mvi_a = KR580VM1Instruction::Mvi(Prefix::Unprefixed, R8::L, 4);
    assert_eq!(mvi_a.to_string(), "\tmvi l, 4");
    test_insn(mvi_a, 2, 7, false);

    let rs_mvi_a = KR580VM1Instruction::Mvi(Prefix::Rs, R8::L1, 4);
    assert_eq!(rs_mvi_a.to_string(), "\trs mvi l1, 4");
    test_insn(rs_mvi_a, 3, 11, true);
}

#[test]
fn lxi() {
    dont_find_it("mb rs lxi");
    dont_find_it("mb lxi");
    assert!(find_it("rs lxi").requires_kr580vm1());
    assert!(!find_it("lxi").requires_kr580vm1());
}

#[test]
fn ldax() {
    dont_find_it("mb rs ldax");
    assert!(find_it("mb ldax").requires_kr580vm1());
    dont_find_it("rs ldax");
    assert!(!find_it("ldax").requires_kr580vm1());
}

#[test]
fn stax() {
    dont_find_it("mb rs stax");
    assert!(find_it("mb stax").requires_kr580vm1());
    dont_find_it("rs stax");
    assert!(!find_it("stax").requires_kr580vm1());
}

#[test]
fn lhld() {
    assert!(find_it("mb rs lhld").requires_kr580vm1());
    assert!(find_it("mb lhld").requires_kr580vm1());
    assert!(find_it("rs lhld").requires_kr580vm1());
    assert!(!find_it("lhld").requires_kr580vm1());

    let lhld = KR580VM1Instruction::Lhld(Prefix::Unprefixed, 0x1234);
    assert_eq!(lhld.to_string(), "\tlhld 1234h");
    test_insn(lhld, 5, 16, false);
}

#[test]
fn lhlx() {
    assert!(find_it("mb rs lhlx").requires_kr580vm1());
    assert!(find_it("mb lhlx").requires_kr580vm1());
    assert!(find_it("rs lhlx").requires_kr580vm1());
    assert!(!find_it("lhlx").requires_kr580vm1());

    let lhlx = KR580VM1Instruction::Lhlx(Prefix::Unprefixed);
    assert_eq!(lhlx.to_string(), "\tlhlx");
    test_insn(lhlx, 3, 10, false);
}

#[test]
fn shld() {
    assert!(find_it("mb rs shld").requires_kr580vm1());
    assert!(find_it("mb shld").requires_kr580vm1());
    assert!(find_it("rs shld").requires_kr580vm1());
    assert!(!find_it("shld").requires_kr580vm1());

    let shld = KR580VM1Instruction::Shld(Prefix::Unprefixed, 0x1234);
    assert_eq!(shld.to_string(), "\tshld 1234h");
    test_insn(shld, 5, 16, false);
}

#[test]
fn lda() {
    dont_find_it("mb rs lda ");
    assert!(find_it("mb lda ").requires_kr580vm1());
    dont_find_it("rs lda ");
    assert!(!find_it("lda ").requires_kr580vm1());

    let lda = KR580VM1Instruction::Lda(Prefix::Unprefixed, 0x1234);
    assert_eq!(lda.to_string(), "\tlda 1234h");
    test_insn(lda, 4, 13, false);
}

#[test]
fn sta() {
    dont_find_it("mb rs sta ");
    assert!(find_it("mb sta ").requires_kr580vm1());
    dont_find_it("rs sta ");
    assert!(!find_it("sta ").requires_kr580vm1());

    let sta = KR580VM1Instruction::Sta(Prefix::Unprefixed, 0x1234);
    assert_eq!(sta.to_string(), "\tsta 1234h");
    test_insn(sta, 4, 13, false);
}

#[test]
fn lxi_and_ldax_move_data_through_memory() {
    let mut state = KR580VM1::default();
    KR580VM1Instruction::Lxi(Prefix::Unprefixed, R16::BC, 0x12, 0x34).operate(&mut state);
    KR580VM1Instruction::Mvi(Prefix::Unprefixed, R8::A, 0x56).operate(&mut state);
    KR580VM1Instruction::Stax(Prefix::Unprefixed, RegisterPairBorD::BC).operate(&mut state);
    KR580VM1Instruction::Mvi(Prefix::Unprefixed, R8::A, 0).operate(&mut state);
    KR580VM1Instruction::Lda(Prefix::Unprefixed, 0x1234).operate(&mut state);
    KR580VM1Instruction::Mov(Prefix::Unprefixed, R8::B, R8::A).operate(&mut state);
    assert_eq!(
        KR580VM1Instruction::Mvi(Prefix::Unprefixed, R8::B, 0x56).to_string(),
        "\tmvi b, 86"
    );
    assert_eq!(
        KR580VM1Instruction::Lxi(Prefix::Rs, R16::H1L1, 0x0a, 0xbc).to_string(),
        "\trs lxi h1, 0abch"
    );
}

#[test]
fn second_bank_is_separate() {
    let mut state = KR580VM1::default();
    KR580VM1Instruction::Mvi(Prefix::Unprefixed, R8::A, 7).operate(&mut state);
    KR580VM1Instruction::Sta(Prefix::Mb, 0x10).operate(&mut state);
    KR580VM1Instruction::Lda(Prefix::Unprefixed, 0x10).operate(&mut state);
    assert_eq!(state.cycles(), 2 + 4 + 1 + 4);
    assert_eq!(state.tacts(), 7 + 13 + 4 + 13);
}

#[test]
fn shld_stores_hl_low_byte_first() {
    let mut state = KR580VM1::default();
    KR580VM1Instruction::Lxi(Prefix::Unprefixed, R16::HL, 0x12, 0x34).operate(&mut state);
    KR580VM1Instruction::Shld(Prefix::Unprefixed, 0x2000).operate(&mut state);
    let dump = format!("{:?}", state);
    assert!(dump.contains("8192: Some(52)"), "{dump}");
    assert!(dump.contains("8193: Some(18)"), "{dump}");
    // Under the rs prefix the alternate pair, here unknown, is stored.
    let mut state = KR580VM1::default();
    KR580VM1Instruction::Lxi(Prefix::Unprefixed, R16::HL, 0x12, 0x34).operate(&mut state);
    KR580VM1Instruction::Shld(Prefix::Rs, 0x2000).operate(&mut state);
    let dump = format!("{:?}", state);
    assert!(dump.contains("8192: None"), "{dump}");
}

#[test]
fn from_draws_builds_each_kind() {
    let d = |kind: usize, p: usize| {
        KR580VM1Instruction::from_draws((kind, p, R8::B, R8::C, R16::DE, RegisterPairBorD::DE, 0x12, 0x34, 0x5678))
    };
    assert_eq!(d(0, 3).to_string(), "\tmb rs mvi b, 18");
    assert_eq!(d(2, 1).to_string(), "\trs lxi d, 1234h");
    assert_eq!(d(3, 3).to_string(), "\tmb ldax d");
    assert_eq!(d(9, 0).to_string(), "\tsta 5678h");
    assert_eq!(d(6, 2).to_string(), "\trs lhlx");
}
