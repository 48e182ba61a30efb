//! The interface a datapath simulator offers to its driver, and the
//! faults that stop a simulation run.

use vstd::prelude::*;

verus! {

/// A fatal condition that terminates the current simulation run.
///
/// Every fault is unrecoverable: the architectural state at the point
/// of failure is left as it was, and is not meant to be used further.
#[derive(Clone, Copy, Debug, PartialEq, Eq, Structural)]
pub enum Fault {
    /// The control signal generator has no signal bundle for the
    /// decoded opcode.
    UnsupportedOpcode,
    /// The ALU control resolver cannot map the function code under the
    /// "derive from function code" selector.
    UnsupportedFunct,
    /// A word load or store touches a byte outside of memory.
    OutOfBoundsMemoryAccess,
}

impl Fault {
    /// A short description of the fault, for the driver to display.
    pub fn message(&self) -> (m: &'static str)
        ensures
            *self is UnsupportedOpcode ==> m@ == "Instruction not supported."@,
            *self is UnsupportedFunct ==> m@ == "Unsupported funct"@,
            *self is OutOfBoundsMemoryAccess ==> m@ == "Out-of-bounds memory access"@,
    {
        match self {
            Fault::UnsupportedOpcode => "Instruction not supported.",
            Fault::UnsupportedFunct => "Unsupported funct",
            Fault::OutOfBoundsMemoryAccess => "Out-of-bounds memory access",
        }
    }
}

/// A machine that can execute instructions whole or one stage at a time.
///
/// The trait fixes, through spec-level hooks, what each operation does:
/// an implementor chooses a mathematical model of its state and two
/// transition predicates, and the executable methods are then bound to
/// them. Faults are reported through `Result`; on a fault the
/// architectural state is left as it was.
pub trait Datapath: Sized {
    /// The mathematical model of the machine state.
    type Model;

    /// The model of the current state.
    spec fn model(&self) -> Self::Model;

    /// The states on which execution may be driven.
    spec fn wf(&self) -> bool;

    /// What one call of `execute_instruction` does: how the model after
    /// the call relates to the model before it, for each outcome.
    spec fn instruction_post(pre: Self::Model, post: Self::Model, r: Result<(), Fault>) -> bool;

    /// What one call of `execute_stage` does.
    spec fn stage_post(pre: Self::Model, post: Self::Model, r: Result<(), Fault>) -> bool;

    /// The register value that introspection under a symbolic name
    /// yields, or `None` for an unrecognized name.
    spec fn register_lookup(m: Self::Model, name: Seq<char>) -> Option<u64>;

    /// Run one full instruction; or, if a previous single-stage run
    /// left an instruction in flight, complete that instruction instead
    /// and do not begin a new one.
    fn execute_instruction(&mut self) -> (r: Result<(), Fault>)
        requires
            old(self).wf(),
        ensures
            final(self).wf(),
            Self::instruction_post(old(self).model(), final(self).model(), r),
    ;

    /// Execute exactly the work bound to the current stage, then
    /// advance to the cyclically next stage.
    fn execute_stage(&mut self) -> (r: Result<(), Fault>)
        requires
            old(self).wf(),
        ensures
            final(self).wf(),
            Self::stage_post(old(self).model(), final(self).model(), r),
    ;

    /// Read-only lookup of a register's committed value by symbolic
    /// name, usable at any point in the cycle.
    fn get_register(&self, register: &str) -> (r: Option<u64>)
        requires
            self.wf(),
        ensures
            r == Self::register_lookup(self.model(), register@),
    ;
}

} // verus!
