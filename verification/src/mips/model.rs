//! The mathematical model of the machine: an abstract state, one
//! transition function per pipeline stage, and their composition into
//! single-step and whole-instruction execution.

use vstd::prelude::*;

use crate::datapath::Fault;
use crate::mips::control_signals::{
    AluControl, AluOp, AluSrc, Branch, ControlSignals, Jump, MemRead, MemToReg, MemWrite,
    MemWriteSrc, RegDst, RegWrite,
};
use crate::mips::datapath::Stage;
use crate::mips::memory::{spec_load_word, CAPACITY};
use crate::mips::registers::GPR_COUNT;

verus! {

/// The abstract state of the machine: the architectural state
/// (registers, program counter, memory), the instruction register, the
/// control signals, the values latched between stages, and the current
/// stage.
#[verifier::ext_equal]
pub struct MachineState {
    pub gpr: Seq<u64>,
    pub pc: u64,
    pub mem: Seq<u8>,
    pub instruction: u32,
    pub signals: ControlSignals,
    pub opcode: u32,
    pub rs: u32,
    pub rt: u32,
    pub rd: u32,
    pub shamt: u32,
    pub funct: u32,
    pub imm: u32,
    pub read_data_1: u64,
    pub read_data_2: u64,
    pub sign_extend: u64,
    pub alu_result: u64,
    pub memory_data: u64,
    pub data_result: u64,
    pub stage: Stage,
}

/// The state a machine is constructed with: everything zeroed, the
/// quiescent signal bundle, and the stage at fetch.
pub open spec fn initial_state() -> MachineState {
    MachineState {
        gpr: Seq::new(GPR_COUNT as nat, |i: int| 0u64),
        pc: 0,
        mem: Seq::new(CAPACITY as nat, |i: int| 0u8),
        instruction: 0,
        signals: ControlSignals::initial(),
        opcode: 0,
        rs: 0,
        rt: 0,
        rd: 0,
        shamt: 0,
        funct: 0,
        imm: 0,
        read_data_1: 0,
        read_data_2: 0,
        sign_extend: 0,
        alu_result: 0,
        memory_data: 0,
        data_result: 0,
        stage: Stage::InstructionFetch,
    }
}

/// The two states agree on everything externally observable as
/// architectural state: registers, program counter, and memory.
pub open spec fn arch_unchanged(pre: MachineState, post: MachineState) -> bool {
    post.gpr == pre.gpr && post.pc == pre.pc && post.mem == pre.mem
}

// ---------------------------------------------------------------------
// Instruction fields and sign extension
// ---------------------------------------------------------------------

/// The opcode field, bits 31..26 of the instruction word.
pub open spec fn field_opcode(i: u32) -> u32 {
    (i >> 26) & 0x3F
}

/// The first source register field, bits 25..21.
pub open spec fn field_rs(i: u32) -> u32 {
    (i >> 21) & 0x1F
}

/// The second source register field, bits 20..16.
pub open spec fn field_rt(i: u32) -> u32 {
    (i >> 16) & 0x1F
}

/// The destination register field, bits 15..11.
pub open spec fn field_rd(i: u32) -> u32 {
    (i >> 11) & 0x1F
}

/// The shift-amount field, bits 10..6.
pub open spec fn field_shamt(i: u32) -> u32 {
    (i >> 6) & 0x1F
}

/// The function code field, bits 5..0.
pub open spec fn field_funct(i: u32) -> u32 {
    i & 0x3F
}

/// The immediate field, bits 15..0.
pub open spec fn field_imm(i: u32) -> u32 {
    i & 0xFFFF
}

/// Every decoded field lies in the range its width allows.
pub proof fn lemma_decoded_fields_in_range(i: u32)
    by (bit_vector)
    ensures
        field_opcode(i) < 64,
        field_rs(i) < 32,
        field_rt(i) < 32,
        field_rd(i) < 32,
        field_shamt(i) < 32,
        field_funct(i) < 64,
        field_imm(i) < 0x10000,
{
}

/// The 16-bit immediate widened to 64 bits: zero-extended when bit 15
/// is clear, extended with all-ones in the upper 48 bits when it is set.
pub open spec fn sign_extend_spec(imm: u32) -> u64 {
    if (imm & 0x8000) >> 15 == 0 {
        imm as u64
    } else {
        (imm as u64) | 0xFFFF_FFFF_FFFF_0000
    }
}

/// The value of `x` reinterpreted as a signed 64-bit quantity.
pub open spec fn to_signed(x: u64) -> int {
    if x < 0x8000_0000_0000_0000 {
        x as int
    } else {
        x - 0x1_0000_0000_0000_0000
    }
}

/// Reinterpreting through an `i64` cast agrees with `to_signed`.
pub proof fn lemma_to_signed_is_cast(x: u64)
    ensures
        to_signed(x) == (x as i64) as int,
{
    assert(x < 0x8000_0000_0000_0000 ==> ((x as i64) as int) == x as int) by (bit_vector);
    assert(x >= 0x8000_0000_0000_0000 ==> ((x as i64) as int) == x - 0x1_0000_0000_0000_0000)
        by (bit_vector);
}

/// Sign-extension correctness: the low 16 bits always recover the
/// immediate; an immediate with bit 15 clear extends to the same
/// numeric value; one with bit 15 set extends to the 64-bit two's
/// complement encoding of `imm - 0x10000`.
pub proof fn lemma_sign_extend_correct(imm: u32)
    requires
        imm < 0x10000,
    ensures
        sign_extend_spec(imm) & 0xFFFF == imm as u64,
        imm & 0x8000 == 0 ==> sign_extend_spec(imm) == imm as u64,
        imm & 0x8000 != 0 ==> to_signed(sign_extend_spec(imm)) == imm - 0x10000,
{
    assert(((imm & 0x8000) >> 15 == 0) == (imm & 0x8000 == 0)) by (bit_vector);
    assert(imm < 0x10000 ==> (imm as u64) & 0xFFFF == imm as u64) by (bit_vector);
    assert(imm < 0x10000 ==> ((imm as u64) | 0xFFFF_FFFF_FFFF_0000) & 0xFFFF == imm as u64)
        by (bit_vector);
    assert(imm < 0x10000 && imm & 0x8000 != 0 ==> ((imm as u64) | 0xFFFF_FFFF_FFFF_0000u64) == imm
        + 0xFFFF_FFFF_FFFF_0000u64) by (bit_vector);
    assert(imm & 0x8000 != 0 ==> ((imm as u64) | 0xFFFF_FFFF_FFFF_0000u64)
        >= 0x8000_0000_0000_0000u64) by (bit_vector);
}

// ---------------------------------------------------------------------
// Control signal generation and ALU control resolution
// ---------------------------------------------------------------------

/// The signal bundle generated for an opcode, or `None` for an opcode
/// the simulator does not support. The generator overwrites every
/// selector except `alu_control`, which the ALU control resolver sets
/// afterwards; `prev` carries it through.
pub open spec fn signals_for_opcode(op: u32, prev: ControlSignals) -> Option<ControlSignals> {
    if op == 0 {
        Some(
            ControlSignals {
                alu_control: prev.alu_control,
                alu_op: AluOp::UseFunctField,
                alu_src: AluSrc::ReadRegister2,
                branch: Branch::NoBranch,
                jump: Jump::NoJump,
                mem_read: MemRead::NoRead,
                mem_to_reg: MemToReg::UseAlu,
                mem_write: MemWrite::NoWrite,
                mem_write_src: MemWriteSrc::PrimaryUnit,
                reg_dst: RegDst::Reg3,
                reg_write: RegWrite::YesWrite,
            },
        )
    } else {
        None
    }
}

/// The concrete ALU operation for an operation class; under
/// `UseFunctField` the function code decides, and an unrecognized
/// function code yields `None`.
pub open spec fn alu_control_for(op: AluOp, funct: u32) -> Option<AluControl> {
    match op {
        AluOp::Addition => Some(AluControl::Addition),
        AluOp::Subtraction => Some(AluControl::Subtraction),
        AluOp::SetOnLessThanSigned => Some(AluControl::SetOnLessThanSigned),
        AluOp::SetOnLessThanUnsigned => Some(AluControl::SetOnLessThanUnsigned),
        AluOp::And => Some(AluControl::And),
        AluOp::Or => Some(AluControl::Or),
        AluOp::LeftShift16 => Some(AluControl::LeftShift16),
        AluOp::UseFunctField => {
            if funct == 0b100000 {
                Some(AluControl::Addition)
            } else if funct == 0b100010 {
                Some(AluControl::Subtraction)
            } else if funct == 0b100100 {
                Some(AluControl::And)
            } else if funct == 0b100101 {
                Some(AluControl::Or)
            } else if funct == 0b101010 {
                Some(AluControl::SetOnLessThanSigned)
            } else if funct == 0b101011 {
                Some(AluControl::SetOnLessThanUnsigned)
            } else {
                None
            }
        },
    }
}

// ---------------------------------------------------------------------
// The ALU
// ---------------------------------------------------------------------

/// What the ALU computes for each concrete operation. Addition and
/// subtraction wrap around 64 bits; the signed comparison reinterprets
/// both operands as signed; the 16-place left shift ignores the first
/// operand; NOT ignores the second.
pub open spec fn alu_eval(ctl: AluControl, a: u64, b: u64) -> u64 {
    match ctl {
        AluControl::Addition => a.wrapping_add(b),
        AluControl::Subtraction => a.wrapping_sub(b),
        AluControl::SetOnLessThanSigned => if to_signed(a) < to_signed(b) {
            1u64
        } else {
            0u64
        },
        AluControl::SetOnLessThanUnsigned => if a < b {
            1u64
        } else {
            0u64
        },
        AluControl::And => a & b,
        AluControl::Or => a | b,
        AluControl::LeftShift16 => b << 16u64,
        AluControl::Not => !a,
    }
}

/// The ALU's second operand, as the `alu_src` selector picks it.
pub open spec fn alu_input2(s: MachineState) -> u64 {
    match s.signals.alu_src {
        AluSrc::ReadRegister2 => s.read_data_2,
        AluSrc::ExtendedImmediate => s.sign_extend,
    }
}

// ---------------------------------------------------------------------
// Per-operation transitions within the decode stage
// ---------------------------------------------------------------------

/// The instruction register partitioned into its bit fields.
pub open spec fn decode_fields_result(s: MachineState) -> MachineState {
    MachineState {
        opcode: field_opcode(s.instruction),
        rs: field_rs(s.instruction),
        rt: field_rt(s.instruction),
        rd: field_rd(s.instruction),
        shamt: field_shamt(s.instruction),
        funct: field_funct(s.instruction),
        imm: field_imm(s.instruction),
        ..s
    }
}

/// The immediate field sign-extended into its latch.
pub open spec fn sign_extend_result(s: MachineState) -> MachineState {
    MachineState { sign_extend: sign_extend_spec(s.imm), ..s }
}

/// Control signal generation from the decoded opcode; an opcode without
/// a signal bundle is an unsupported-opcode fault.
pub open spec fn control_signals_result(s: MachineState) -> Result<MachineState, Fault> {
    match signals_for_opcode(s.opcode, s.signals) {
        Some(sig) => Ok(MachineState { signals: sig, ..s }),
        None => Err(Fault::UnsupportedOpcode),
    }
}

/// Both source registers read into their latches.
pub open spec fn read_registers_result(s: MachineState) -> MachineState {
    MachineState { read_data_1: s.gpr[s.rs as int], read_data_2: s.gpr[s.rt as int], ..s }
}

/// ALU control resolution; an unrecognized function code under the
/// "use funct" selector is an unsupported-funct fault.
pub open spec fn alu_control_result(s: MachineState) -> Result<MachineState, Fault> {
    match alu_control_for(s.signals.alu_op, s.funct) {
        Some(ctl) => Ok(
            MachineState { signals: ControlSignals { alu_control: ctl, ..s.signals }, ..s },
        ),
        None => Err(Fault::UnsupportedFunct),
    }
}

// ---------------------------------------------------------------------
// The five stage transitions
// ---------------------------------------------------------------------

/// Fetch: the word at the program counter moves into the instruction
/// register; a program counter pointing outside memory is an
/// out-of-bounds fault.
pub open spec fn fetch_result(s: MachineState) -> Result<MachineState, Fault> {
    if s.pc + 3 < s.mem.len() {
        Ok(MachineState { instruction: spec_load_word(s.mem, s.pc as int), ..s })
    } else {
        Err(Fault::OutOfBoundsMemoryAccess)
    }
}

/// Decode: partition the instruction, sign-extend the immediate,
/// generate control signals, read the source registers, and resolve the
/// ALU operation, in that order.
pub open spec fn decode_result(s: MachineState) -> Result<MachineState, Fault> {
    let s1 = sign_extend_result(decode_fields_result(s));
    match control_signals_result(s1) {
        Err(f) => Err(f),
        Ok(s2) => alu_control_result(read_registers_result(s2)),
    }
}

/// Execute: the ALU runs on the selected operands.
pub open spec fn execute_result(s: MachineState) -> MachineState {
    MachineState {
        alu_result: alu_eval(s.signals.alu_control, s.read_data_1, alu_input2(s)),
        ..s
    }
}

/// Memory access: reserved for loads and stores; a no-op in the
/// supported instruction subset.
pub open spec fn memory_result(s: MachineState) -> MachineState {
    s
}

/// The write-back commit without the program counter update: the value
/// selected by `mem_to_reg` lands in its latch and, when register
/// writing is enabled, in the destination register.
pub open spec fn register_write_result(s: MachineState) -> MachineState {
    let data = match s.signals.mem_to_reg {
        MemToReg::UseAlu => s.alu_result,
        MemToReg::UseMemory => s.memory_data,
    };
    let dest = match s.signals.reg_dst {
        RegDst::Reg2 => s.rt,
        RegDst::Reg3 => s.rd,
    };
    let gpr = if s.signals.reg_write is YesWrite {
        s.gpr.update(dest as int, data)
    } else {
        s.gpr
    };
    MachineState { data_result: data, gpr: gpr, ..s }
}

/// The program counter advanced to the next word.
pub open spec fn pc_result(s: MachineState) -> MachineState {
    MachineState { pc: s.pc.wrapping_add(4), ..s }
}

/// Write-back: commit the selected value, then advance the program
/// counter by 4.
pub open spec fn writeback_result(s: MachineState) -> MachineState {
    pc_result(register_write_result(s))
}

// ---------------------------------------------------------------------
// Stage sequencing
// ---------------------------------------------------------------------

/// The cyclic successor of a stage.
pub open spec fn next_stage_spec(st: Stage) -> Stage {
    match st {
        Stage::InstructionFetch => Stage::InstructionDecode,
        Stage::InstructionDecode => Stage::Execute,
        Stage::Execute => Stage::Memory,
        Stage::Memory => Stage::WriteBack,
        Stage::WriteBack => Stage::InstructionFetch,
    }
}

/// A stage's position in the cycle, fetch first.
pub open spec fn stage_index(st: Stage) -> int {
    match st {
        Stage::InstructionFetch => 0,
        Stage::InstructionDecode => 1,
        Stage::Execute => 2,
        Stage::Memory => 3,
        Stage::WriteBack => 4,
    }
}

/// How many stages are left before the machine is back at fetch; zero
/// at fetch itself.
pub open spec fn remaining_stages(st: Stage) -> nat {
    if st is InstructionFetch {
        0
    } else {
        (5 - stage_index(st)) as nat
    }
}

/// The work bound to the current stage, without the stage advance.
pub open spec fn stage_result(s: MachineState) -> Result<MachineState, Fault> {
    match s.stage {
        Stage::InstructionFetch => fetch_result(s),
        Stage::InstructionDecode => decode_result(s),
        Stage::Execute => Ok(execute_result(s)),
        Stage::Memory => Ok(memory_result(s)),
        Stage::WriteBack => Ok(writeback_result(s)),
    }
}

/// One single-stage step: the current stage's work, then the advance to
/// the cyclically next stage. A fault leaves the state untouched.
pub open spec fn step_result(s: MachineState) -> Result<MachineState, Fault> {
    match stage_result(s) {
        Ok(s2) => Ok(MachineState { stage: next_stage_spec(s.stage), ..s2 }),
        Err(f) => Err(f),
    }
}

/// `n` single-stage steps in sequence, stopping at the first fault.
pub open spec fn steps_result(s: MachineState, n: nat) -> Result<MachineState, Fault>
    decreases n,
{
    if n == 0 {
        Ok(s)
    } else {
        match step_result(s) {
            Ok(s2) => steps_result(s2, (n - 1) as nat),
            Err(f) => Err(f),
        }
    }
}

/// Completing an in-flight instruction: step until the machine is back
/// at fetch.
pub open spec fn finish_result(s: MachineState) -> Result<MachineState, Fault> {
    steps_result(s, remaining_stages(s.stage))
}

/// Away from fetch, completing the instruction is one step followed by
/// completing the rest, and each successful step brings the machine one
/// stage closer to fetch.
pub proof fn lemma_finish_unfold(s: MachineState)
    requires
        !(s.stage is InstructionFetch),
    ensures
        finish_result(s) == (match step_result(s) {
            Ok(s2) => finish_result(s2),
            Err(f) => Err(f),
        }),
        step_result(s) matches Ok(s2) ==> remaining_stages(s2.stage) < remaining_stages(s.stage),
{
    match step_result(s) {
        Ok(s2) => {
            assert(s2.stage == next_stage_spec(s.stage));
            match s.stage {
                Stage::InstructionFetch => {},
                Stage::InstructionDecode => {
                    assert(remaining_stages(s.stage) == 4 && remaining_stages(s2.stage) == 3);
                },
                Stage::Execute => {
                    assert(remaining_stages(s.stage) == 3 && remaining_stages(s2.stage) == 2);
                },
                Stage::Memory => {
                    assert(remaining_stages(s.stage) == 2 && remaining_stages(s2.stage) == 1);
                },
                Stage::WriteBack => {
                    assert(remaining_stages(s.stage) == 1 && remaining_stages(s2.stage) == 0);
                },
            }
        },
        Err(_) => {},
    }
}

/// One whole instruction driven from fetch: the five stage transitions
/// composed, with the stage marker left where it was.
pub open spec fn instruction_result(s: MachineState) -> Result<MachineState, Fault> {
    match fetch_result(s) {
        Err(f) => Err(f),
        Ok(s1) => match decode_result(s1) {
            Err(f) => Err(f),
            Ok(s2) => Ok(writeback_result(memory_result(execute_result(s2)))),
        },
    }
}

/// What one call of whole-instruction execution does: from fetch it
/// runs one full instruction; from anywhere else it only completes the
/// instruction already in flight.
pub open spec fn full_result(s: MachineState) -> Result<MachineState, Fault> {
    if s.stage is InstructionFetch {
        instruction_result(s)
    } else {
        finish_result(s)
    }
}

// ---------------------------------------------------------------------
// Laws
// ---------------------------------------------------------------------

/// The state with only the stage marker replaced.
spec fn with_stage(s: MachineState, st: Stage) -> MachineState {
    MachineState { stage: st, ..s }
}

/// None of the stage transitions reads the stage marker: replacing it
/// before a transition is the same as replacing it afterwards.
proof fn lemma_stage_framing(s: MachineState, st: Stage)
    ensures
        fetch_result(with_stage(s, st)) == (match fetch_result(s) {
            Ok(t) => Ok::<MachineState, Fault>(with_stage(t, st)),
            Err(f) => Err(f),
        }),
        decode_result(with_stage(s, st)) == (match decode_result(s) {
            Ok(t) => Ok::<MachineState, Fault>(with_stage(t, st)),
            Err(f) => Err(f),
        }),
        execute_result(with_stage(s, st)) == with_stage(execute_result(s), st),
        memory_result(with_stage(s, st)) == with_stage(memory_result(s), st),
        writeback_result(with_stage(s, st)) == with_stage(writeback_result(s), st),
{
    let b = with_stage(s, st);
    match fetch_result(s) {
        Ok(t) => {
            assert((MachineState { instruction: spec_load_word(s.mem, s.pc as int), ..b }) =~= (
            with_stage(t, st)));
        },
        Err(_) => {},
    }
    assert(decode_fields_result(b) =~= with_stage(decode_fields_result(s), st));
    assert(sign_extend_result(decode_fields_result(b)) =~= with_stage(
        sign_extend_result(decode_fields_result(s)),
        st,
    ));
    let s1 = sign_extend_result(decode_fields_result(s));
    let b1 = sign_extend_result(decode_fields_result(b));
    match control_signals_result(s1) {
        Ok(t1) => {
            assert(control_signals_result(b1) matches Ok(u1) && u1 =~= with_stage(t1, st));
            let s2 = read_registers_result(t1);
            let b2 = read_registers_result(with_stage(t1, st));
            assert(b2 =~= with_stage(s2, st));
            match alu_control_result(s2) {
                Ok(t2) => {
                    assert(alu_control_result(b2) matches Ok(u2) && u2 =~= with_stage(t2, st));
                },
                Err(_) => {},
            }
        },
        Err(_) => {},
    }
    assert(execute_result(b) =~= with_stage(execute_result(s), st));
    assert(register_write_result(b) =~= with_stage(register_write_result(s), st));
    assert(pc_result(register_write_result(b)) =~= with_stage(
        pc_result(register_write_result(s)),
        st,
    ));
}

/// Stage cycle completeness: driving single-stage execution exactly
/// five times from fetch is the same transformation as one
/// whole-instruction execution, and in particular it returns the
/// machine to the fetch stage.
pub proof fn lemma_stage_cycle(s: MachineState)
    requires
        s.stage is InstructionFetch,
    ensures
        steps_result(s, 5) == instruction_result(s),
        steps_result(s, 5) matches Ok(t) ==> t.stage is InstructionFetch,
{
    match fetch_result(s) {
        Err(f) => {
            assert(steps_result(s, 5) == Err::<MachineState, Fault>(f));
        },
        Ok(s1) => {
            let u1 = with_stage(s1, Stage::InstructionDecode);
            assert(step_result(s) == Ok::<MachineState, Fault>(u1)) by {
                assert((MachineState { stage: next_stage_spec(s.stage), ..s1 }) =~= u1);
            }
            assert(steps_result(s, 5) == steps_result(u1, 4));
            lemma_stage_framing(s1, Stage::InstructionDecode);
            match decode_result(s1) {
                Err(f) => {
                    assert(steps_result(u1, 4) == Err::<MachineState, Fault>(f));
                },
                Ok(s2) => {
                    let u2 = with_stage(s2, Stage::Execute);
                    assert(step_result(u1) == Ok::<MachineState, Fault>(u2)) by {
                        assert((MachineState {
                            stage: next_stage_spec(u1.stage),
                            ..with_stage(s2, Stage::InstructionDecode)
                        }) =~= u2);
                    }
                    assert(steps_result(u1, 4) == steps_result(u2, 3));
                    lemma_stage_framing(s2, Stage::Execute);
                    let s3 = execute_result(s2);
                    let u3 = with_stage(s3, Stage::Memory);
                    assert(step_result(u2) == Ok::<MachineState, Fault>(u3)) by {
                        assert((MachineState {
                            stage: next_stage_spec(u2.stage),
                            ..execute_result(u2)
                        }) =~= u3);
                    }
                    assert(steps_result(u2, 3) == steps_result(u3, 2));
                    let u4 = with_stage(s3, Stage::WriteBack);
                    assert(step_result(u3) == Ok::<MachineState, Fault>(u4)) by {
                        assert((MachineState { stage: next_stage_spec(u3.stage), ..u3 }) =~= u4);
                    }
                    assert(steps_result(u3, 2) == steps_result(u4, 1));
                    lemma_stage_framing(s3, Stage::WriteBack);
                    let s5 = writeback_result(s3);
                    let u5 = with_stage(s5, Stage::InstructionFetch);
                    assert(step_result(u4) == Ok::<MachineState, Fault>(u5)) by {
                        assert((MachineState {
                            stage: next_stage_spec(u4.stage),
                            ..writeback_result(u4)
                        }) =~= u5);
                    }
                    assert(steps_result(u4, 1) == steps_result(u5, 0));
                    assert(s5.stage is InstructionFetch);
                    assert(u5 =~= s5);
                    assert(instruction_result(s) == Ok::<MachineState, Fault>(s5));
                },
            }
        },
    }
}

/// Mid-cycle resume: completing an instruction already in flight ends
/// back at fetch without fetching anything new — the instruction
/// register and memory are untouched — and performs the one pending
/// program counter advance.
pub proof fn lemma_mid_cycle_resume(s: MachineState)
    requires
        !(s.stage is InstructionFetch),
    ensures
        finish_result(s) matches Ok(t) ==> t.stage is InstructionFetch && t.instruction
            == s.instruction && t.mem == s.mem && t.pc == s.pc.wrapping_add(4),
    decreases remaining_stages(s.stage),
{
    lemma_finish_unfold(s);
    match step_result(s) {
        Err(_) => {},
        Ok(s2) => {
            assert(s2.stage == next_stage_spec(s.stage));
            if s.stage is WriteBack {
                assert(s2 == with_stage(writeback_result(s), Stage::InstructionFetch));
                assert(finish_result(s2) == Ok::<MachineState, Fault>(s2));
            } else {
                assert(!(s2.stage is InstructionFetch));
                lemma_mid_cycle_resume(s2);
                // A step away from write-back leaves the program
                // counter, the instruction register, and memory alone.
                assert(s2.instruction == s.instruction && s2.mem == s.mem && s2.pc == s.pc);
            }
        },
    }
}

/// A 4-byte-aligned program counter stays 4-byte aligned across any
/// single-stage step taken through the orchestrator.
pub proof fn lemma_pc_stays_aligned(s: MachineState)
    requires
        s.pc % 4 == 0,
    ensures
        step_result(s) matches Ok(t) ==> t.pc % 4 == 0,
{
    match step_result(s) {
        Err(_) => {},
        Ok(t) => {
            if s.stage is WriteBack {
                assert(t.pc == s.pc.wrapping_add(4));
                if s.pc + 4 > u64::MAX {
                    assert(s.pc == 0xFFFF_FFFF_FFFF_FFFCu64);
                    assert(t.pc == 0);
                }
            } else {
                assert(t.pc == s.pc);
            }
        },
    }
}

/// Program counter monotonicity: a whole instruction that executes
/// without a fault advances the program counter by exactly 4.
pub proof fn lemma_pc_advances_by_four(s: MachineState)
    requires
        s.mem.len() <= u64::MAX,
    ensures
        instruction_result(s) matches Ok(t) ==> t.pc == s.pc + 4,
{
    match fetch_result(s) {
        Err(_) => {},
        Ok(s1) => {
            assert(s.pc + 3 < s.mem.len());
            match decode_result(s1) {
                Err(_) => {},
                Ok(s2) => {
                    assert(s2.pc == s.pc);
                    assert(writeback_result(memory_result(execute_result(s2))).pc
                        == s.pc.wrapping_add(4));
                },
            }
        },
    }
}

} // verus!
