//! The stage state machine and the datapath orchestrator.

use vstd::prelude::*;

use crate::datapath::{Datapath, Fault};
use crate::mips::control_signals::{
    AluControl, AluOp, AluSrc, Branch, ControlSignals, Jump, MemRead, MemToReg, MemWrite,
    MemWriteSrc, RegDst, RegWrite,
};
use crate::mips::memory::Memory;
use crate::mips::model::{
    alu_control_result, arch_unchanged, control_signals_result, decode_fields_result,
    decode_result, execute_result, fetch_result, finish_result, full_result, initial_state,
    lemma_decoded_fields_in_range, lemma_finish_unfold, lemma_to_signed_is_cast, memory_result,
    next_stage_spec, pc_result, read_registers_result, register_write_result, remaining_stages,
    sign_extend_result, signals_for_opcode, stage_result, step_result, writeback_result,
    MachineState,
};
use crate::mips::registers::{reg_lookup, Registers, GPR_COUNT};

verus! {

/// The five stages of one instruction's execution, cyclic.
#[derive(Clone, Copy, Debug, PartialEq, Eq, Structural)]
pub enum Stage {
    InstructionFetch,
    InstructionDecode,
    Execute,
    Memory,
    WriteBack,
}

impl Stage {
    /// The cyclic successor of a stage.
    pub fn get_next_stage(current_stage: Stage) -> (r: Stage)
        ensures
            r == next_stage_spec(current_stage),
    {
        match current_stage {
            Stage::InstructionFetch => Stage::InstructionDecode,
            Stage::InstructionDecode => Stage::Execute,
            Stage::Execute => Stage::Memory,
            Stage::Memory => Stage::WriteBack,
            Stage::WriteBack => Stage::InstructionFetch,
        }
    }
}

/// The MIPS-flavored datapath: register file, memory, the instruction
/// register, the control signal bundle, the values latched between
/// stages, and the current stage.
pub struct MipsDatapath {
    pub registers: Registers,
    pub memory: Memory,
    pub instruction: u32,
    pub signals: ControlSignals,
    pub opcode: u32,
    pub rs: u32,
    pub rt: u32,
    pub rd: u32,
    pub shamt: u32,
    pub funct: u32,
    pub imm: u32,
    pub read_data_1: u64,
    pub read_data_2: u64,
    pub sign_extend: u64,
    pub alu_result: u64,
    pub memory_data: u64,
    pub data_result: u64,
    pub current_stage: Stage,
}

impl View for MipsDatapath {
    type V = MachineState;

    open spec fn view(&self) -> MachineState {
        MachineState {
            gpr: self.registers.gpr@,
            pc: self.registers.pc,
            mem: self.memory.memory@,
            instruction: self.instruction,
            signals: self.signals,
            opcode: self.opcode,
            rs: self.rs,
            rt: self.rt,
            rd: self.rd,
            shamt: self.shamt,
            funct: self.funct,
            imm: self.imm,
            read_data_1: self.read_data_1,
            read_data_2: self.read_data_2,
            sign_extend: self.sign_extend,
            alu_result: self.alu_result,
            memory_data: self.memory_data,
            data_result: self.data_result,
            stage: self.current_stage,
        }
    }
}

impl Default for MipsDatapath {
    /// A machine with zeroed registers and zeroed memory of the fixed
    /// capacity, ready to fetch from address 0.
    fn default() -> (r: MipsDatapath)
        ensures
            r.well_formed(),
            r@ == initial_state(),
    {
        let r = MipsDatapath {
            registers: Registers::default(),
            memory: Memory::default(),
            instruction: 0,
            signals: ControlSignals::default(),
            opcode: 0,
            rs: 0,
            rt: 0,
            rd: 0,
            shamt: 0,
            funct: 0,
            imm: 0,
            read_data_1: 0,
            read_data_2: 0,
            sign_extend: 0,
            alu_result: 0,
            memory_data: 0,
            data_result: 0,
            current_stage: Stage::InstructionFetch,
        };
        proof {
            assert(r@.gpr =~= initial_state().gpr);
            assert(r@.mem =~= initial_state().mem);
            assert(r@ =~= initial_state());
        }
        r
    }
}

impl MipsDatapath {
    /// The register file holds its full bank, and every latched
    /// register index is in range. Constructors establish this and
    /// every operation preserves it.
    pub open spec fn well_formed(self) -> bool {
        &&& self.registers.wf()
        &&& self.rs < GPR_COUNT as u32
        &&& self.rt < GPR_COUNT as u32
        &&& self.rd < GPR_COUNT as u32
    }

    /// Load the word at the program counter into the instruction
    /// register.
    pub fn instruction_fetch(&mut self) -> (r: Result<(), Fault>)
        ensures
            match r {
                Ok(()) => fetch_result(old(self)@) == Ok::<MachineState, Fault>(final(self)@),
                Err(f) => fetch_result(old(self)@) == Err::<MachineState, Fault>(f) && *final(self)
                    == *old(self),
            },
    {
        match self.memory.load_word(self.registers.pc) {
            Ok(w) => {
                self.instruction = w;
                proof {
                    assert(self@ =~= (MachineState { instruction: w, ..old(self)@ }));
                }
                Ok(())
            },
            Err(f) => Err(f),
        }
    }

    /// Partition the instruction register into its bit fields.
    pub fn instruction_decode(&mut self)
        ensures
            final(self)@ == decode_fields_result(old(self)@),
            final(self).well_formed() == old(self).registers.wf(),
    {
        self.opcode = (self.instruction >> 26) & 0b111111;
        self.rs = (self.instruction >> 21) & 0b11111;
        self.rt = (self.instruction >> 16) & 0b11111;
        self.rd = (self.instruction >> 11) & 0b11111;
        self.shamt = (self.instruction >> 6) & 0b11111;
        self.funct = self.instruction & 0b111111;
        self.imm = self.instruction & 0xFFFF;
        proof {
            lemma_decoded_fields_in_range(old(self).instruction);
            assert(self@ =~= decode_fields_result(old(self)@));
        }
    }

    /// Sign-extend the immediate field into its latch.
    pub fn sign_extend(&mut self)
        ensures
            final(self)@ == sign_extend_result(old(self)@),
            final(self).well_formed() == old(self).well_formed(),
    {
        self.sign_extend = if (self.imm & 0x00008000) >> 15 == 0 {
            self.imm as u64
        } else {
            (self.imm as u64) | 0xFFFF_FFFF_FFFF_0000
        };
        proof {
            assert(self@ =~= sign_extend_result(old(self)@));
        }
    }

    /// Generate the control signal bundle from the decoded opcode. An
    /// opcode without a defined bundle is an unsupported-opcode fault
    /// and changes nothing.
    pub fn set_control_signals(&mut self) -> (r: Result<(), Fault>)
        ensures
            match r {
                Ok(()) => control_signals_result(old(self)@) == Ok::<MachineState, Fault>(
                    final(self)@,
                ),
                Err(f) => control_signals_result(old(self)@) == Err::<MachineState, Fault>(f)
                    && *final(self) == *old(self),
            },
            final(self).well_formed() == old(self).well_formed(),
    {
        match self.opcode {
            // R-type instructions (add, sub, and, or, slt, sltu)
            0 => {
                self.signals.alu_op = AluOp::UseFunctField;
                self.signals.alu_src = AluSrc::ReadRegister2;
                self.signals.branch = Branch::NoBranch;
                self.signals.jump = Jump::NoJump;
                self.signals.mem_read = MemRead::NoRead;
                self.signals.mem_to_reg = MemToReg::UseAlu;
                self.signals.mem_write = MemWrite::NoWrite;
                self.signals.mem_write_src = MemWriteSrc::PrimaryUnit;
                self.signals.reg_dst = RegDst::Reg3;
                self.signals.reg_write = RegWrite::YesWrite;
                proof {
                    assert(control_signals_result(old(self)@) == Ok::<MachineState, Fault>(self@))
                        by {
                        assert(self@ =~= (MachineState {
                            signals: signals_for_opcode(old(self)@.opcode, old(self)@.signals)->0,
                            ..old(self)@
                        }));
                    }
                }
                Ok(())
            },
            _ => Err(Fault::UnsupportedOpcode),
        }
    }

    /// Read both source registers into their latches.
    pub fn read_registers(&mut self)
        requires
            old(self).well_formed(),
        ensures
            final(self)@ == read_registers_result(old(self)@),
            final(self).well_formed(),
    {
        let reg1 = self.rs as usize;
        let reg2 = self.rt as usize;
        self.read_data_1 = self.registers.read(reg1);
        self.read_data_2 = self.registers.read(reg2);
        proof {
            assert(self@ =~= read_registers_result(old(self)@));
        }
    }

    /// Resolve the concrete ALU operation from the operation class and,
    /// under the "use funct" selector, the function code. An
    /// unrecognized function code is an unsupported-funct fault and
    /// changes nothing.
    pub fn set_alu_control(&mut self) -> (r: Result<(), Fault>)
        ensures
            match r {
                Ok(()) => alu_control_result(old(self)@) == Ok::<MachineState, Fault>(
                    final(self)@,
                ),
                Err(f) => alu_control_result(old(self)@) == Err::<MachineState, Fault>(f)
                    && *final(self) == *old(self),
            },
            final(self).well_formed() == old(self).well_formed(),
    {
        let ctl = match self.signals.alu_op {
            AluOp::Addition => AluControl::Addition,
            AluOp::Subtraction => AluControl::Subtraction,
            AluOp::SetOnLessThanSigned => {
                AluControl::SetOnLessThanSigned
            },
            AluOp::SetOnLessThanUnsigned => {
                AluControl::SetOnLessThanUnsigned
            },
            AluOp::And => AluControl::And,
            AluOp::Or => AluControl::Or,
            AluOp::LeftShift16 => AluControl::LeftShift16,
            AluOp::UseFunctField => match self.funct {
                0b100000 => AluControl::Addition,
                0b100010 => AluControl::Subtraction,
                0b100100 => AluControl::And,
                0b100101 => AluControl::Or,
                0b101010 => AluControl::SetOnLessThanSigned,
                0b101011 => AluControl::SetOnLessThanUnsigned,
                _ => {
                    return Err(Fault::UnsupportedFunct);
                },
            },
        };
        self.signals.alu_control = ctl;
        proof {
            assert(self@ =~= (MachineState {
                signals: ControlSignals { alu_control: ctl, ..old(self)@.signals },
                ..old(self)@
            }));
        }
        Ok(())
    }

    /// Run the ALU on the selected operands into the result latch.
    pub fn alu(&mut self)
        ensures
            final(self)@ == execute_result(old(self)@),
            final(self).well_formed() == old(self).well_formed(),
    {
        let input1 = self.read_data_1;
        let input2 = match self.signals.alu_src {
            AluSrc::ReadRegister2 => self.read_data_2,
            AluSrc::ExtendedImmediate => self.sign_extend,
        };
        proof {
            lemma_to_signed_is_cast(input1);
            lemma_to_signed_is_cast(input2);
        }
        self.alu_result = match self.signals.alu_control {
            AluControl::Addition => input1.wrapping_add(input2),
            AluControl::Subtraction => input1.wrapping_sub(input2),
            AluControl::SetOnLessThanSigned => ((input1 as i64) < (input2 as i64)) as u64,
            AluControl::SetOnLessThanUnsigned => (input1 < input2) as u64,
            AluControl::And => input1 & input2,
            AluControl::Or => input1 | input2,
            AluControl::LeftShift16 => input2 << 16u64,
            AluControl::Not => !input1,
        };
        proof {
            assert(self@ =~= execute_result(old(self)@));
        }
    }

    /// Commit the selected value: latch it, and write it to the
    /// destination register when register writing is enabled.
    pub fn register_write(&mut self)
        requires
            old(self).well_formed(),
        ensures
            final(self)@ == register_write_result(old(self)@),
            final(self).well_formed(),
    {
        self.data_result = match self.signals.mem_to_reg {
            MemToReg::UseAlu => self.alu_result,
            MemToReg::UseMemory => self.memory_data,
        };
        match self.signals.reg_write {
            RegWrite::NoWrite => {
                proof {
                    assert(self@ =~= register_write_result(old(self)@));
                }
            },
            RegWrite::YesWrite => {
                let destination = match self.signals.reg_dst {
                    RegDst::Reg2 => self.rt as usize,
                    RegDst::Reg3 => self.rd as usize,
                };
                self.registers.write(destination, self.data_result);
                proof {
                    assert(self@ =~= register_write_result(old(self)@));
                }
            },
        }
    }

    /// Advance the program counter to the next word.
    pub fn set_pc(&mut self)
        ensures
            final(self)@ == pc_result(old(self)@),
            final(self).well_formed() == old(self).well_formed(),
    {
        self.registers.pc = self.registers.pc.wrapping_add(4);
        proof {
            assert(self@ =~= pc_result(old(self)@));
        }
    }

    /// The fetch stage. A fault leaves the machine untouched.
    pub fn stage_instruction_fetch(&mut self) -> (r: Result<(), Fault>)
        ensures
            final(self).well_formed() == old(self).well_formed(),
            match r {
                Ok(()) => fetch_result(old(self)@) == Ok::<MachineState, Fault>(final(self)@),
                Err(f) => fetch_result(old(self)@) == Err::<MachineState, Fault>(f) && *final(self)
                    == *old(self),
            },
    {
        self.instruction_fetch()
    }

    /// The decode stage: partition the instruction, sign-extend the
    /// immediate, generate control signals, read the source registers,
    /// resolve the ALU operation. A fault leaves the architectural
    /// state, the instruction register, and the stage untouched.
    pub fn stage_instruction_decode(&mut self) -> (r: Result<(), Fault>)
        requires
            old(self).well_formed(),
        ensures
            final(self).well_formed(),
            match r {
                Ok(()) => decode_result(old(self)@) == Ok::<MachineState, Fault>(final(self)@),
                Err(f) => decode_result(old(self)@) == Err::<MachineState, Fault>(f)
                    && arch_unchanged(old(self)@, final(self)@) && final(self)@.stage == old(
                    self,
                )@.stage && final(self)@.instruction == old(self)@.instruction,
            },
    {
        self.instruction_decode();
        self.sign_extend();
        match self.set_control_signals() {
            Ok(()) => {},
            Err(f) => {
                return Err(f);
            },
        }
        self.read_registers();
        match self.set_alu_control() {
            Ok(()) => {},
            Err(f) => {
                return Err(f);
            },
        }
        Ok(())
    }

    /// The execute stage.
    pub fn stage_execute(&mut self)
        ensures
            final(self)@ == execute_result(old(self)@),
            final(self).well_formed() == old(self).well_formed(),
    {
        self.alu();
    }

    /// The memory-access stage: reserved for load and store
    /// instructions, a no-op in the supported instruction subset.
    pub fn stage_memory(&mut self)
        ensures
            *final(self) == *old(self),
            final(self)@ == memory_result(old(self)@),
    {
    }

    /// The write-back stage: commit the selected value, then advance
    /// the program counter.
    pub fn stage_writeback(&mut self)
        requires
            old(self).well_formed(),
        ensures
            final(self)@ == writeback_result(old(self)@),
            final(self).well_formed(),
    {
        self.register_write();
        self.set_pc();
    }

    /// Complete the instruction in flight: step stage by stage until
    /// the machine is back at fetch. A fault leaves the architectural
    /// state and the stage untouched.
    pub fn finish_instruction(&mut self) -> (r: Result<(), Fault>)
        requires
            old(self).well_formed(),
        ensures
            final(self).well_formed(),
            match r {
                Ok(()) => finish_result(old(self)@) == Ok::<MachineState, Fault>(final(self)@)
                    && final(self).current_stage is InstructionFetch,
                Err(f) => finish_result(old(self)@) == Err::<MachineState, Fault>(f)
                    && arch_unchanged(old(self)@, final(self)@) && final(self)@.stage == old(
                    self,
                )@.stage,
            },
    {
        let ghost orig = self@;
        while self.current_stage != Stage::InstructionFetch
            invariant
                orig == old(self)@,
                self.well_formed(),
                finish_result(orig) == finish_result(self@),
                self@.stage is InstructionDecode ==> self@ == orig,
            decreases remaining_stages(self@.stage),
        {
            let ghost pre = self@;
            match self.execute_stage() {
                Ok(()) => {},
                Err(f) => {
                    proof {
                        lemma_finish_unfold(pre);
                        match pre.stage {
                            Stage::InstructionFetch => {},
                            Stage::InstructionDecode => {},
                            Stage::Execute => {
                                assert(stage_result(pre) is Ok);
                            },
                            Stage::Memory => {
                                assert(stage_result(pre) is Ok);
                            },
                            Stage::WriteBack => {
                                assert(stage_result(pre) is Ok);
                            },
                        }
                        assert(pre.stage is InstructionDecode);
                        assert(pre == orig);
                    }
                    return Err(f);
                },
            }
            proof {
                lemma_finish_unfold(pre);
            }
        }
        Ok(())
    }
}

impl Datapath for MipsDatapath {
    type Model = MachineState;

    open spec fn model(&self) -> MachineState {
        self@
    }

    open spec fn wf(&self) -> bool {
        self.well_formed()
    }

    open spec fn instruction_post(pre: MachineState, post: MachineState, r: Result<
        (),
        Fault,
    >) -> bool {
        match r {
            Ok(()) => full_result(pre) == Ok::<MachineState, Fault>(post),
            Err(f) => full_result(pre) == Err::<MachineState, Fault>(f) && arch_unchanged(pre, post)
                && post.stage == pre.stage,
        }
    }

    open spec fn stage_post(pre: MachineState, post: MachineState, r: Result<(), Fault>) -> bool {
        match r {
            Ok(()) => step_result(pre) == Ok::<MachineState, Fault>(post),
            Err(f) => step_result(pre) == Err::<MachineState, Fault>(f) && arch_unchanged(pre, post)
                && post.stage == pre.stage && post.instruction == pre.instruction,
        }
    }

    open spec fn register_lookup(m: MachineState, name: Seq<char>) -> Option<u64> {
        reg_lookup(m.gpr, m.pc, name)
    }

    fn execute_instruction(&mut self) -> (r: Result<(), Fault>) {
        // An instruction left unfinished by single-stage runs is
        // completed first, and nothing more.
        if self.current_stage != Stage::InstructionFetch {
            return self.finish_instruction();
        }
        match self.stage_instruction_fetch() {
            Ok(()) => {},
            Err(f) => {
                return Err(f);
            },
        }
        match self.stage_instruction_decode() {
            Ok(()) => {},
            Err(f) => {
                return Err(f);
            },
        }
        self.stage_execute();
        self.stage_memory();
        self.stage_writeback();
        Ok(())
    }

    fn execute_stage(&mut self) -> (r: Result<(), Fault>) {
        match self.current_stage {
            Stage::InstructionFetch => {
                match self.stage_instruction_fetch() {
                    Ok(()) => {},
                    Err(f) => {
                        return Err(f);
                    },
                }
            },
            Stage::InstructionDecode => {
                match self.stage_instruction_decode() {
                    Ok(()) => {},
                    Err(f) => {
                        return Err(f);
                    },
                }
            },
            Stage::Execute => {
                self.stage_execute();
            },
            Stage::Memory => {
                self.stage_memory();
            },
            Stage::WriteBack => {
                self.stage_writeback();
            },
        }
        self.current_stage = Stage::get_next_stage(self.current_stage);
        proof {
            assert(self@ =~= (MachineState {
                stage: next_stage_spec(old(self)@.stage),
                ..stage_result(old(self)@)->Ok_0
            }));
        }
        Ok(())
    }

    fn get_register(&self, register: &str) -> (r: Option<u64>) {
        self.registers.read_by_name(register)
    }
}

} // verus!
