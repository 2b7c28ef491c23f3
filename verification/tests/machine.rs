use strop::machine::stm8::{adc_insn, add_insn, Operand8, Stm8, Stm8Instruction, Stm8Op, Stm8Operands};
use strop::machine::{
    add_to_reg8, bitwise_and, get_a, get_x, get_y, mos6502, mos65c02, set_a, set_x, set_y,
    Instruction, Operation, State, Strop,
};

fn run(prog: &[Instruction], state: &mut State) {
    for i in prog {
        assert!(i.operate(state));
    }
}

#[test]
fn registers_read_back() {
    let mut s = State::new();
    assert_eq!(get_a(&s), None);
    set_a(&mut s, 5);
    set_x(&mut s, -3);
    set_y(&mut s, 9);
    assert_eq!(get_a(&s), Some(5));
    assert_eq!(get_x(&s), Some(-3));
    assert_eq!(get_y(&s), Some(9));
}

#[test]
fn adding_after_clearing_the_carry() {
    let mut adc = Instruction::imm("adc", Operation::AdcDp);
    adc.randomize(&vec![5], &vec![]);
    let clc = Instruction::inh("clc", Operation::Clc);
    let mut s = State::new();
    set_a(&mut s, 3);
    run(&[clc, adc], &mut s);
    assert_eq!(get_a(&s), Some(8));
    // with the carry unknown the sum is unknown too
    let mut s = State::new();
    set_a(&mut s, 3);
    run(&[adc], &mut s);
    assert_eq!(get_a(&s), None);
}

#[test]
fn memory_round_trip() {
    let mut sta = Instruction::abs("sta", Operation::Sta);
    sta.randomize(&vec![], &vec![0x200]);
    let mut lda = Instruction::abs("lda", Operation::Lda);
    lda.randomize(&vec![], &vec![0x200]);
    let tax = Instruction::inh("tax", Operation::Tax);
    let mut s = State::new();
    set_a(&mut s, 42);
    run(&[sta, tax], &mut s);
    set_a(&mut s, 0);
    run(&[lda], &mut s);
    assert_eq!(get_a(&s), Some(42));
    assert_eq!(get_x(&s), Some(42));
    assert_eq!(sta.to_string(), "\tsta 512");
}

#[test]
fn alu_helpers() {
    assert_eq!(bitwise_and(Some(0x0f), Some(0x3c)), (Some(0x0c), Some(false)));
    assert_eq!(bitwise_and(Some(0x0f), Some(0x30)), (Some(0), Some(true)));
    assert_eq!(bitwise_and(None, Some(0x30)), (None, None));
    let (r, ..) = add_to_reg8(Some(100), Some(100), Some(false));
    assert_eq!(r, Some(-56));
}

#[test]
fn add_sets_the_unsigned_carry() {
    // 0xff + 0x01: the result is zero, with a carry out of bit 7 and no signed overflow.
    assert_eq!(
        add_to_reg8(Some(-1), Some(1), Some(false)),
        (Some(0), Some(true), Some(true), Some(false), Some(false), Some(true))
    );
    // 100 + 100 overflows the signed range but carries nothing out of bit 7.
    let (_, c, _, _, o, _) = add_to_reg8(Some(100), Some(100), Some(false));
    assert_eq!((c, o), (Some(false), Some(true)));
    // A carry in counts: 0x80 + 0x7f + 1 carries out.
    let (r, c, ..) = add_to_reg8(Some(-128), Some(127), Some(true));
    assert_eq!((r, c), (Some(0), Some(true)));
}

#[test]
fn instruction_lists() {
    let nmos = mos6502();
    let cmos = mos65c02();
    assert_eq!(nmos.len(), 23);
    assert_eq!(cmos.len(), 26);
    assert_eq!(nmos[0].to_string(), "\tinx");
    assert_eq!(cmos[0].to_string(), "\tina");
    for (a, b) in nmos.iter().zip(cmos[3..].iter()) {
        assert_eq!(a.to_string(), b.to_string());
    }
    let v = Instruction::imm("and", Operation::And).vectorize(&[1, -2], &[]);
    assert_eq!(v.len(), 2);
    assert_eq!(v[1].to_string(), "\tand #-2");
}

#[test]
fn stm8_add() {
    let mut s = Stm8::default();
    adc_insn().operate(&mut s);
    assert_eq!(adc_insn().to_string(), "\tadc a, Imm8(0)");
    assert_eq!(add_insn().to_string(), "\tadd a, Imm8(0)");
    assert_eq!(add_insn().length(), 1);
    let mut i = add_insn();
    i.mutate();
    assert_eq!(i.op, Stm8Op::Add);
}

#[test]
fn byte_mutations_stay_close() {
    for _ in 0..100 {
        let mut b: u8 = 0x80;
        b.mutate();
        let d = b ^ 0x80;
        assert!(b == 0x81 || b == 0x7f || d.count_ones() == 1);
    }
}

#[test]
fn stm8_random_operands_are_byte_operands() {
    for _ in 0..50 {
        assert!(matches!(<Stm8Operands as Strop>::random(), Stm8Operands::Alu8(_)));
        let i = <Stm8Instruction as Strop>::random();
        match i.operand {
            Stm8Operands::Alu8(Operand8::Imm8(v)) => {
                assert!(v == 1 || v == 0xff || v.count_ones() == 1, "{v}")
            }
            _ => panic!("not a constant operand"),
        }
    }
}
