//! The control signal bundle: a set of independent, closed selectors
//! that configure the datapath for one instruction.

use vstd::prelude::*;

verus! {

/// ALU operation class, as selected by the opcode. `UseFunctField`
/// routes the choice of the concrete operation through the instruction's
/// function code instead.
#[derive(Clone, Copy, Debug, PartialEq, Eq, Structural)]
pub enum AluOp {
    Addition,
    Subtraction,
    SetOnLessThanSigned,
    SetOnLessThanUnsigned,
    And,
    Or,
    LeftShift16,
    UseFunctField,
}

/// The concrete operation the ALU performs.
#[derive(Clone, Copy, Debug, PartialEq, Eq, Structural)]
pub enum AluControl {
    Addition,
    Subtraction,
    SetOnLessThanSigned,
    SetOnLessThanUnsigned,
    And,
    Or,
    LeftShift16,
    Not,
}

/// Source of the ALU's second operand.
#[derive(Clone, Copy, Debug, PartialEq, Eq, Structural)]
pub enum AluSrc {
    ReadRegister2,
    ExtendedImmediate,
}

/// Whether the instruction branches.
#[derive(Clone, Copy, Debug, PartialEq, Eq, Structural)]
pub enum Branch {
    NoBranch,
    YesBranch,
}

/// Whether the instruction jumps.
#[derive(Clone, Copy, Debug, PartialEq, Eq, Structural)]
pub enum Jump {
    NoJump,
    YesJump,
}

/// Whether the memory stage reads from memory.
#[derive(Clone, Copy, Debug, PartialEq, Eq, Structural)]
pub enum MemRead {
    NoRead,
    YesRead,
}

/// Source of the value committed at write-back: the ALU result or the
/// value read from memory.
#[derive(Clone, Copy, Debug, PartialEq, Eq, Structural)]
pub enum MemToReg {
    UseAlu,
    UseMemory,
}

/// Whether the memory stage writes to memory.
#[derive(Clone, Copy, Debug, PartialEq, Eq, Structural)]
pub enum MemWrite {
    NoWrite,
    YesWrite,
}

/// Source of the data a memory write would store.
#[derive(Clone, Copy, Debug, PartialEq, Eq, Structural)]
pub enum MemWriteSrc {
    PrimaryUnit,
    SecondaryUnit,
}

/// Which decoded field names the destination register: the second
/// source register field (`rt`) or the destination field (`rd`).
#[derive(Clone, Copy, Debug, PartialEq, Eq, Structural)]
pub enum RegDst {
    Reg2,
    Reg3,
}

/// Whether write-back writes a register at all.
#[derive(Clone, Copy, Debug, PartialEq, Eq, Structural)]
pub enum RegWrite {
    NoWrite,
    YesWrite,
}

/// The full bundle of control signals.
///
/// The bundle is wholly overwritten on every decode (`alu_control` by
/// the ALU control resolver, everything else by the control signal
/// generator), so no selector carries over between instructions.
#[derive(Clone, Copy, Debug, PartialEq, Eq, Structural)]
pub struct ControlSignals {
    pub alu_control: AluControl,
    pub alu_op: AluOp,
    pub alu_src: AluSrc,
    pub branch: Branch,
    pub jump: Jump,
    pub mem_read: MemRead,
    pub mem_to_reg: MemToReg,
    pub mem_write: MemWrite,
    pub mem_write_src: MemWriteSrc,
    pub reg_dst: RegDst,
    pub reg_write: RegWrite,
}

impl Default for ControlSignals {
    /// The quiescent bundle a machine starts with: nothing is written
    /// anywhere until the first decode replaces the whole bundle.
    fn default() -> (r: ControlSignals)
        ensures
            r == ControlSignals::initial(),
    {
        ControlSignals {
            alu_control: AluControl::Addition,
            alu_op: AluOp::Addition,
            alu_src: AluSrc::ReadRegister2,
            branch: Branch::NoBranch,
            jump: Jump::NoJump,
            mem_read: MemRead::NoRead,
            mem_to_reg: MemToReg::UseAlu,
            mem_write: MemWrite::NoWrite,
            mem_write_src: MemWriteSrc::PrimaryUnit,
            reg_dst: RegDst::Reg2,
            reg_write: RegWrite::NoWrite,
        }
    }
}

impl ControlSignals {
    /// The bundle `Default` yields.
    pub open spec fn initial() -> ControlSignals {
        ControlSignals {
            alu_control: AluControl::Addition,
            alu_op: AluOp::Addition,
            alu_src: AluSrc::ReadRegister2,
            branch: Branch::NoBranch,
            jump: Jump::NoJump,
            mem_read: MemRead::NoRead,
            mem_to_reg: MemToReg::UseAlu,
            mem_write: MemWrite::NoWrite,
            mem_write_src: MemWriteSrc::PrimaryUnit,
            reg_dst: RegDst::Reg2,
            reg_write: RegWrite::NoWrite,
        }
    }
}

} // verus!
