use mips_datapath::datapath::Fault;
use mips_datapath::mips::control_signals::{AluControl, AluOp, AluSrc};
use mips_datapath::mips::datapath::MipsDatapath;

fn run_alu(ctl: AluControl, a: u64, b: u64) -> u64 {
    let mut dp = MipsDatapath::default();
    dp.signals.alu_control = ctl;
    dp.signals.alu_src = AluSrc::ReadRegister2;
    dp.read_data_1 = a;
    dp.read_data_2 = b;
    dp.alu();
    dp.alu_result
}

#[test]
fn alu_addition_wraps() {
    assert_eq!(run_alu(AluControl::Addition, 2, 3), 5);
    assert_eq!(run_alu(AluControl::Addition, u64::MAX, 1), 0);
    assert_eq!(run_alu(AluControl::Addition, u64::MAX, u64::MAX), u64::MAX - 1);
}

#[test]
fn alu_subtraction_wraps() {
    assert_eq!(run_alu(AluControl::Subtraction, 7, 3), 4);
    assert_eq!(run_alu(AluControl::Subtraction, 0, 1), u64::MAX);
}

#[test]
fn alu_set_on_less_than_signed() {
    // -1 < 1 when both are read as signed.
    assert_eq!(run_alu(AluControl::SetOnLessThanSigned, u64::MAX, 1), 1);
    assert_eq!(run_alu(AluControl::SetOnLessThanSigned, 1, u64::MAX), 0);
    assert_eq!(run_alu(AluControl::SetOnLessThanSigned, 3, 9), 1);
    assert_eq!(run_alu(AluControl::SetOnLessThanSigned, 9, 3), 0);
    assert_eq!(run_alu(AluControl::SetOnLessThanSigned, 5, 5), 0);
}

#[test]
fn alu_set_on_less_than_unsigned() {
    // The raw bit patterns compare the other way around.
    assert_eq!(run_alu(AluControl::SetOnLessThanUnsigned, u64::MAX, 1), 0);
    assert_eq!(run_alu(AluControl::SetOnLessThanUnsigned, 1, u64::MAX), 1);
    assert_eq!(run_alu(AluControl::SetOnLessThanUnsigned, 5, 5), 0);
}

#[test]
fn alu_bitwise_and_or() {
    assert_eq!(run_alu(AluControl::And, 0b1100, 0b1010), 0b1000);
    assert_eq!(run_alu(AluControl::Or, 0b1100, 0b1010), 0b1110);
}

#[test]
fn alu_left_shift_16_ignores_first_operand() {
    assert_eq!(run_alu(AluControl::LeftShift16, 77, 0x1234), 0x1234_0000);
    assert_eq!(run_alu(AluControl::LeftShift16, 0, 1), 0x1_0000);
}

#[test]
fn alu_not_ignores_second_operand() {
    assert_eq!(run_alu(AluControl::Not, 0, 77), u64::MAX);
    assert_eq!(run_alu(AluControl::Not, u64::MAX, 3), 0);
}

#[test]
fn alu_second_operand_can_come_from_immediate() {
    let mut dp = MipsDatapath::default();
    dp.signals.alu_control = AluControl::Addition;
    dp.signals.alu_src = AluSrc::ExtendedImmediate;
    dp.read_data_1 = 10;
    dp.read_data_2 = 999;
    dp.sign_extend = 32;
    dp.alu();
    assert_eq!(dp.alu_result, 42);
}

#[test]
fn sign_extension_positive() {
    let mut dp = MipsDatapath::default();
    dp.imm = 0x7FFF;
    dp.sign_extend();
    assert_eq!(dp.sign_extend, 0x7FFF);
    dp.imm = 0;
    dp.sign_extend();
    assert_eq!(dp.sign_extend, 0);
}

#[test]
fn sign_extension_negative() {
    let mut dp = MipsDatapath::default();
    dp.imm = 0x8000;
    dp.sign_extend();
    assert_eq!(dp.sign_extend, 0xFFFF_FFFF_FFFF_8000);
    // As two's complement this is 0x8000 - 0x10000.
    assert_eq!(dp.sign_extend as i64, -0x8000);
    dp.imm = 0xFFFF;
    dp.sign_extend();
    assert_eq!(dp.sign_extend, 0xFFFF_FFFF_FFFF_FFFF);
    assert_eq!(dp.sign_extend as i64, -1);
}

#[test]
fn alu_control_resolves_each_funct() {
    let cases = [
        (0b100000, AluControl::Addition),
        (0b100010, AluControl::Subtraction),
        (0b100100, AluControl::And),
        (0b100101, AluControl::Or),
        (0b101010, AluControl::SetOnLessThanSigned),
        (0b101011, AluControl::SetOnLessThanUnsigned),
    ];
    for (funct, expected) in cases.iter() {
        let mut dp = MipsDatapath::default();
        dp.signals.alu_op = AluOp::UseFunctField;
        dp.funct = *funct;
        assert!(dp.set_alu_control().is_ok());
        assert_eq!(dp.signals.alu_control, *expected);
    }
}

#[test]
fn alu_control_rejects_unknown_funct() {
    let mut dp = MipsDatapath::default();
    dp.signals.alu_op = AluOp::UseFunctField;
    dp.funct = 0b111111;
    assert_eq!(dp.set_alu_control(), Err(Fault::UnsupportedFunct));
}

#[test]
fn alu_control_passes_direct_classes_through() {
    let cases = [
        (AluOp::Addition, AluControl::Addition),
        (AluOp::Subtraction, AluControl::Subtraction),
        (AluOp::SetOnLessThanSigned, AluControl::SetOnLessThanSigned),
        (AluOp::SetOnLessThanUnsigned, AluControl::SetOnLessThanUnsigned),
        (AluOp::And, AluControl::And),
        (AluOp::Or, AluControl::Or),
        (AluOp::LeftShift16, AluControl::LeftShift16),
    ];
    for (op, expected) in cases.iter() {
        let mut dp = MipsDatapath::default();
        dp.signals.alu_op = *op;
        // The funct field must not matter for these classes.
        dp.funct = 0b111111;
        assert!(dp.set_alu_control().is_ok());
        assert_eq!(dp.signals.alu_control, *expected);
    }
}
