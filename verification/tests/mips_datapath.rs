use mips_datapath::datapath::{Datapath, Fault};
use mips_datapath::mips::control_signals::{
    AluOp, AluSrc, Branch, Jump, MemRead, MemToReg, MemWrite, RegDst, RegWrite,
};
use mips_datapath::mips::cpu::Cpu;
use mips_datapath::mips::datapath::{MipsDatapath, Stage};
use mips_datapath::mips::registers::RegisterType;

/// The bit pattern for "add $t1, $t1, $t1": opcode 0, rs = rt = rd = 9,
/// funct 0b100000.
const ADD_T1_T1_T1: u32 = 0b000000_01001_01001_01001_00000_100000;

#[test]
fn double_register() {
    let mut datapath = MipsDatapath::default();

    let instruction: u32 = 0b000000_01001_01001_01001_00000_100000;
    datapath.memory.store_word(0, instruction).unwrap();
    datapath.registers.write(RegisterType::T1.index(), 5);

    datapath.execute_instruction().unwrap();

    assert_eq!(datapath.registers.gpr[9], 10);
}

#[test]
fn add_updates_register_and_pc() {
    let mut dp = MipsDatapath::default();
    dp.memory.store_word(0, ADD_T1_T1_T1).unwrap();
    dp.registers.write(9, 5);
    assert_eq!(dp.registers.pc, 0);

    assert_eq!(dp.execute_instruction(), Ok(()));

    assert_eq!(dp.registers.read(9), 10);
    assert_eq!(dp.registers.pc, 4);
    assert_eq!(dp.get_register("t1"), Some(10));
    assert_eq!(dp.get_register("pc"), Some(4));
}

#[test]
fn unsupported_opcode_faults() {
    let mut dp = MipsDatapath::default();
    // Opcode 0b111111 has no signal bundle.
    dp.memory.store_word(0, 0xFC00_0000).unwrap();
    assert_eq!(dp.execute_instruction(), Err(Fault::UnsupportedOpcode));
    // The architectural state was not silently advanced.
    assert_eq!(dp.registers.pc, 0);
    for i in 0..32 {
        assert_eq!(dp.registers.read(i), 0);
    }
}

#[test]
fn unsupported_funct_faults() {
    let mut dp = MipsDatapath::default();
    // Opcode 0 routes through funct, and funct 0b111111 is unmapped.
    dp.memory.store_word(0, 0x0000_003F).unwrap();
    assert_eq!(dp.execute_instruction(), Err(Fault::UnsupportedFunct));
    assert_eq!(dp.registers.pc, 0);
}

#[test]
fn fetch_out_of_bounds_faults() {
    let mut dp = MipsDatapath::default();
    dp.registers.pc = 13;
    assert_eq!(dp.execute_instruction(), Err(Fault::OutOfBoundsMemoryAccess));
    assert_eq!(dp.registers.pc, 13);
}

#[test]
fn decode_generates_r_type_signals() {
    let mut dp = MipsDatapath::default();
    dp.memory.store_word(0, ADD_T1_T1_T1).unwrap();
    dp.execute_stage().unwrap(); // fetch
    dp.execute_stage().unwrap(); // decode
    assert_eq!(dp.signals.alu_op, AluOp::UseFunctField);
    assert_eq!(dp.signals.alu_src, AluSrc::ReadRegister2);
    assert_eq!(dp.signals.branch, Branch::NoBranch);
    assert_eq!(dp.signals.jump, Jump::NoJump);
    assert_eq!(dp.signals.mem_read, MemRead::NoRead);
    assert_eq!(dp.signals.mem_to_reg, MemToReg::UseAlu);
    assert_eq!(dp.signals.mem_write, MemWrite::NoWrite);
    assert_eq!(dp.signals.reg_dst, RegDst::Reg3);
    assert_eq!(dp.signals.reg_write, RegWrite::YesWrite);
}

#[test]
fn five_stages_equal_one_instruction() {
    let mut whole = MipsDatapath::default();
    whole.memory.store_word(0, ADD_T1_T1_T1).unwrap();
    whole.registers.write(9, 5);

    let mut staged = MipsDatapath::default();
    staged.memory.store_word(0, ADD_T1_T1_T1).unwrap();
    staged.registers.write(9, 5);

    whole.execute_instruction().unwrap();
    for _ in 0..5 {
        staged.execute_stage().unwrap();
    }

    // Back at fetch, with identical architectural state.
    assert_eq!(staged.current_stage, Stage::InstructionFetch);
    assert_eq!(staged.registers.pc, whole.registers.pc);
    for i in 0..32 {
        assert_eq!(staged.registers.read(i), whole.registers.read(i));
    }
    assert_eq!(staged.memory.memory, whole.memory.memory);
}

#[test]
fn stage_advances_cyclically() {
    let mut dp = MipsDatapath::default();
    dp.memory.store_word(0, ADD_T1_T1_T1).unwrap();
    assert_eq!(dp.current_stage, Stage::InstructionFetch);
    dp.execute_stage().unwrap();
    assert_eq!(dp.current_stage, Stage::InstructionDecode);
    dp.execute_stage().unwrap();
    assert_eq!(dp.current_stage, Stage::Execute);
    dp.execute_stage().unwrap();
    assert_eq!(dp.current_stage, Stage::Memory);
    dp.execute_stage().unwrap();
    assert_eq!(dp.current_stage, Stage::WriteBack);
    dp.execute_stage().unwrap();
    assert_eq!(dp.current_stage, Stage::InstructionFetch);
}

#[test]
fn get_next_stage_cycles() {
    assert_eq!(
        Stage::get_next_stage(Stage::InstructionFetch),
        Stage::InstructionDecode
    );
    assert_eq!(Stage::get_next_stage(Stage::InstructionDecode), Stage::Execute);
    assert_eq!(Stage::get_next_stage(Stage::Execute), Stage::Memory);
    assert_eq!(Stage::get_next_stage(Stage::Memory), Stage::WriteBack);
    assert_eq!(
        Stage::get_next_stage(Stage::WriteBack),
        Stage::InstructionFetch
    );
}

#[test]
fn mid_cycle_resume_completes_only_current_instruction() {
    let mut dp = MipsDatapath::default();
    dp.memory.store_word(0, ADD_T1_T1_T1).unwrap();
    dp.registers.write(9, 5);

    // Advance partway: fetch, decode, execute.
    dp.execute_stage().unwrap();
    dp.execute_stage().unwrap();
    dp.execute_stage().unwrap();
    assert_eq!(dp.current_stage, Stage::Memory);
    assert_eq!(dp.registers.pc, 0);

    // A whole-instruction run now only finishes the in-flight
    // instruction: one register write, one program counter advance,
    // and no new fetch.
    dp.execute_instruction().unwrap();
    assert_eq!(dp.current_stage, Stage::InstructionFetch);
    assert_eq!(dp.registers.read(9), 10);
    assert_eq!(dp.registers.pc, 4);
    assert_eq!(dp.instruction, ADD_T1_T1_T1);
}

#[test]
fn resumed_instruction_does_not_start_the_next_one() {
    let mut dp = MipsDatapath::default();
    dp.memory.store_word(0, ADD_T1_T1_T1).unwrap();
    dp.memory.store_word(4, ADD_T1_T1_T1).unwrap();
    dp.registers.write(9, 5);

    dp.execute_stage().unwrap(); // fetch
    dp.execute_stage().unwrap(); // decode
    dp.execute_instruction().unwrap(); // finishes the first instruction only
    assert_eq!(dp.registers.read(9), 10);
    assert_eq!(dp.registers.pc, 4);

    // The next whole-instruction run executes the second instruction.
    dp.execute_instruction().unwrap();
    assert_eq!(dp.registers.read(9), 20);
    assert_eq!(dp.registers.pc, 8);
}

#[test]
fn get_register_unknown_name_is_none() {
    let dp = MipsDatapath::default();
    assert_eq!(dp.get_register("nonsense"), None);
    assert_eq!(dp.get_register("t1"), Some(0));
    assert_eq!(dp.get_register("pc"), Some(0));
}

#[test]
fn fault_messages() {
    assert_eq!(Fault::UnsupportedOpcode.message(), "Instruction not supported.");
    assert_eq!(Fault::UnsupportedFunct.message(), "Unsupported funct");
    assert_eq!(
        Fault::OutOfBoundsMemoryAccess.message(),
        "Out-of-bounds memory access"
    );
}

#[test]
fn cpu_starts_at_zero() {
    let cpu = Cpu::new();
    assert_eq!(cpu.pc, 0);
}
