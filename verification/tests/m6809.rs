use strop::m6809::Insn;

#[test]
fn incr_at_offset_carries() {
    let mut i = Insn([0x00, 0xff, 0xff, 0x00, 0x00]);
    i.incr_at_offset(2);
    assert_eq!(i.0, [0x01, 0x00, 0x00, 0x00, 0x00]);
    let mut i = Insn([0x12, 0x34, 0x00, 0x00, 0x00]);
    i.incr_at_offset(1);
    assert_eq!(i.0, [0x12, 0x35, 0x00, 0x00, 0x00]);
}

#[test]
fn valid_rejects_the_range_the_decoder_cannot_take() {
    assert!(!Insn([17, 189, 0, 0, 0]).valid(false));
    assert!(Insn([17, 188, 0, 0, 0]).valid(false));
    assert!(!Insn([0x12, 0, 0, 0, 0]).valid(true));
    assert!(Insn([0x12, 0, 0, 0, 0]).valid(false));
}

#[test]
fn fixup_skips_illegal_opcodes() {
    let mut i = Insn([0x01, 5, 6, 7, 8]);
    i.fixup();
    assert_eq!(i.0, [0x03, 5, 6, 7, 8]);
    let mut i = Insn([0x12, 7, 0, 0, 0]);
    i.fixup();
    assert_eq!(i.0, [0x16, 7, 0, 0, 0]);
    let mut i = Insn([0x10, 0x00, 0, 0, 0]);
    i.fixup();
    assert_eq!(i.0, [0x10, 0x21, 0, 0, 0]);
}

#[test]
fn fixup_repairs_operands() {
    // a transfer between registers of different sizes is skipped
    let mut i = Insn([0x1e, 0x06, 0, 0, 0]);
    i.fixup();
    assert_eq!(i.0, [0x1e, 0x10, 0, 0, 0]);
    // a valid transfer stays
    let mut i = Insn([0x1e, 0x00, 0, 0, 0]);
    i.fixup();
    assert_eq!(i.0, [0x1e, 0x00, 0, 0, 0]);
    // an unused index postbyte is skipped
    let mut i = Insn([0x30, 0x87, 0, 0, 0]);
    i.fixup();
    assert_eq!(i.0, [0x30, 0x90, 0, 0, 0]);
    // past the last index postbyte, the opcode moves on
    let mut i = Insn([0xe0, 0xff, 0, 0, 0]);
    i.fixup();
    assert_eq!(i.0, [0xe1, 0x00, 0, 0, 0]);
}

#[test]
fn fixup_is_idempotent_on_these() {
    for bytes in [[0x01, 5, 6, 7, 8], [0x1e, 0x06, 0, 0, 0], [0x30, 0x87, 0, 0, 0]] {
        let mut i = Insn(bytes);
        i.fixup();
        let mut j = i;
        j.fixup();
        assert_eq!(i.0, j.0);
    }
}

#[test]
fn fixup_moves_forward_on_these() {
    for bytes in [
        [0x01, 5, 6, 7, 8],
        [0x10, 0xfe, 0xf7, 0, 0],
        [0x11, 0xbd, 0, 0, 0],
        [0xef, 0xff, 0, 0, 0],
        [0x1f, 0xff, 0, 0, 0],
    ] {
        let mut i = Insn(bytes);
        i.fixup();
        assert!(i.0 >= bytes, "{:?} went back to {:?}", bytes, i.0);
    }
    let mut i = Insn([0x11, 0xbd, 0, 0, 0]);
    i.fixup();
    assert_eq!(i.0, [0x16, 0xbd, 0, 0, 0]);
}

#[test]
fn first_is_all_zeros() {
    assert_eq!(Insn::first().0, [0, 0, 0, 0, 0]);
}

#[test]
fn step_counts_up_then_fixes_up() {
    // A one-byte opcode counts up to $13, which the fixup moves on to $16.
    let mut i = Insn([0x12, 0, 0, 0, 0]);
    assert!(i.step(1));
    assert_eq!(i.0, [0x16, 0, 0, 0, 0]);
    // A two-byte instruction counts up in its second byte; the fixup then moves opcode $86 on
    // to $a0, the next opcode on its list, keeping the valid postbyte.
    let mut i = Insn([0x86, 0x41, 0, 0, 0]);
    assert!(i.step(2));
    assert_eq!(i.0, [0xa0, 0x42, 0, 0, 0]);
    // The step agrees with counting up and fixing up by hand.
    for start in [[0x01u8, 0, 0, 0, 0], [0x10, 0x20, 0x05, 0, 0], [0x1f, 0xff, 0, 0, 0]] {
        for size in 1..=3usize {
            let mut a = Insn(start);
            let mut b = Insn(start);
            assert!(a.step(size));
            b.incr_at_offset(size - 1);
            b.fixup();
            assert_eq!(a, b);
        }
    }
}

#[test]
fn step_stops_at_the_end() {
    let mut i = Insn([0xff, 0xff, 0xff, 0, 0]);
    assert!(!i.step(3));
    assert_eq!(i.0, [0xff, 0xff, 0xff, 0, 0]);
}

#[test]
fn encode_takes_the_instruction_bytes() {
    let i = Insn([0x8e, 0x12, 0x34, 0x56, 0x78]);
    assert_eq!(i.encode(3), vec![0x8e, 0x12, 0x34]);
    assert_eq!(i.encode(1), vec![0x8e]);
    assert_eq!(i.debug_string(3), "8e 12 34");
    assert_eq!(i.debug_string(0), "");
}

#[test]
fn push_and_pull_list_their_registers() {
    assert_eq!(Insn([0x34, 0x06, 0, 0, 0]).to_string("?"), "pshs a b ");
    assert_eq!(Insn([0x35, 0x81, 0, 0, 0]).to_string("?"), "puls cc pc ");
    assert_eq!(Insn([0x36, 0x40, 0, 0, 0]).to_string("?"), "pshu s ");
    assert_eq!(Insn([0x37, 0xff, 0, 0, 0]).to_string("?"), "pulu cc a b dp x y s pc ");
    assert_eq!(Insn([0x34, 0x40, 0, 0, 0]).to_string("?"), "pshs u ");
    assert_eq!(Insn([0x34, 0x00, 0, 0, 0]).to_string("?"), "pshs ");
    assert_eq!(Insn([0x12, 0, 0, 0, 0]).to_string("nop"), "nop");
}
