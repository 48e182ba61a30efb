//! The register file: 32 general-purpose 64-bit registers plus the
//! program counter, addressable by index or by symbolic name.

use vstd::prelude::*;

verus! {

/// The number of general-purpose registers.
pub const GPR_COUNT: usize = 32;

/// The symbolic names of the general-purpose registers, in index order.
#[derive(Clone, Copy, Debug, PartialEq, Eq, Structural)]
pub enum RegisterType {
    Zero,
    At,
    V0,
    V1,
    A0,
    A1,
    A2,
    A3,
    T0,
    T1,
    T2,
    T3,
    T4,
    T5,
    T6,
    T7,
    S0,
    S1,
    S2,
    S3,
    S4,
    S5,
    S6,
    S7,
    T8,
    T9,
    K0,
    K1,
    Gp,
    Sp,
    Fp,
    Ra,
}

impl RegisterType {
    /// The register index the name stands for.
    pub open spec fn as_index(self) -> int {
        match self {
            RegisterType::Zero => 0,
            RegisterType::At => 1,
            RegisterType::V0 => 2,
            RegisterType::V1 => 3,
            RegisterType::A0 => 4,
            RegisterType::A1 => 5,
            RegisterType::A2 => 6,
            RegisterType::A3 => 7,
            RegisterType::T0 => 8,
            RegisterType::T1 => 9,
            RegisterType::T2 => 10,
            RegisterType::T3 => 11,
            RegisterType::T4 => 12,
            RegisterType::T5 => 13,
            RegisterType::T6 => 14,
            RegisterType::T7 => 15,
            RegisterType::S0 => 16,
            RegisterType::S1 => 17,
            RegisterType::S2 => 18,
            RegisterType::S3 => 19,
            RegisterType::S4 => 20,
            RegisterType::S5 => 21,
            RegisterType::S6 => 22,
            RegisterType::S7 => 23,
            RegisterType::T8 => 24,
            RegisterType::T9 => 25,
            RegisterType::K0 => 26,
            RegisterType::K1 => 27,
            RegisterType::Gp => 28,
            RegisterType::Sp => 29,
            RegisterType::Fp => 30,
            RegisterType::Ra => 31,
        }
    }

    /// The register index the name stands for.
    pub fn index(self) -> (i: usize)
        ensures
            i == self.as_index(),
            i < GPR_COUNT,
    {
        match self {
            RegisterType::Zero => 0,
            RegisterType::At => 1,
            RegisterType::V0 => 2,
            RegisterType::V1 => 3,
            RegisterType::A0 => 4,
            RegisterType::A1 => 5,
            RegisterType::A2 => 6,
            RegisterType::A3 => 7,
            RegisterType::T0 => 8,
            RegisterType::T1 => 9,
            RegisterType::T2 => 10,
            RegisterType::T3 => 11,
            RegisterType::T4 => 12,
            RegisterType::T5 => 13,
            RegisterType::T6 => 14,
            RegisterType::T7 => 15,
            RegisterType::S0 => 16,
            RegisterType::S1 => 17,
            RegisterType::S2 => 18,
            RegisterType::S3 => 19,
            RegisterType::S4 => 20,
            RegisterType::S5 => 21,
            RegisterType::S6 => 22,
            RegisterType::S7 => 23,
            RegisterType::T8 => 24,
            RegisterType::T9 => 25,
            RegisterType::K0 => 26,
            RegisterType::K1 => 27,
            RegisterType::Gp => 28,
            RegisterType::Sp => 29,
            RegisterType::Fp => 30,
            RegisterType::Ra => 31,
        }
    }
}

/// Relies on `str`'s `PartialEq`: two string slices are equal exactly
/// when they consist of the same characters.
#[verifier::external_body]
fn str_eq(a: &str, b: &str) -> (r: bool)
    ensures
        r == (a@ == b@),
{
    a == b
}

/// The general-purpose register index a mnemonic stands for, or `None`
/// for anything that is not a recognized mnemonic. The program counter
/// has its own reserved name and is not part of this mapping.
pub open spec fn reg_name_index(name: Seq<char>) -> Option<int> {
    if name == "zero"@ {
        Some(0int)
    } else if name == "at"@ {
        Some(1int)
    } else if name == "v0"@ {
        Some(2int)
    } else if name == "v1"@ {
        Some(3int)
    } else if name == "a0"@ {
        Some(4int)
    } else if name == "a1"@ {
        Some(5int)
    } else if name == "a2"@ {
        Some(6int)
    } else if name == "a3"@ {
        Some(7int)
    } else if name == "t0"@ {
        Some(8int)
    } else if name == "t1"@ {
        Some(9int)
    } else if name == "t2"@ {
        Some(10int)
    } else if name == "t3"@ {
        Some(11int)
    } else if name == "t4"@ {
        Some(12int)
    } else if name == "t5"@ {
        Some(13int)
    } else if name == "t6"@ {
        Some(14int)
    } else if name == "t7"@ {
        Some(15int)
    } else if name == "s0"@ {
        Some(16int)
    } else if name == "s1"@ {
        Some(17int)
    } else if name == "s2"@ {
        Some(18int)
    } else if name == "s3"@ {
        Some(19int)
    } else if name == "s4"@ {
        Some(20int)
    } else if name == "s5"@ {
        Some(21int)
    } else if name == "s6"@ {
        Some(22int)
    } else if name == "s7"@ {
        Some(23int)
    } else if name == "t8"@ {
        Some(24int)
    } else if name == "t9"@ {
        Some(25int)
    } else if name == "k0"@ {
        Some(26int)
    } else if name == "k1"@ {
        Some(27int)
    } else if name == "gp"@ {
        Some(28int)
    } else if name == "sp"@ {
        Some(29int)
    } else if name == "fp"@ {
        Some(30int)
    } else if name == "ra"@ {
        Some(31int)
    } else {
        None
    }
}

/// The value the register file yields for a symbolic name: the program
/// counter under its reserved name, a general-purpose register under
/// its mnemonic, and nothing otherwise.
pub open spec fn reg_lookup(gpr: Seq<u64>, pc: u64, name: Seq<char>) -> Option<u64> {
    if name == "pc"@ {
        Some(pc)
    } else {
        match reg_name_index(name) {
            Some(i) => Some(gpr[i]),
            None => None,
        }
    }
}

/// The register file: 32 general-purpose 64-bit registers and the
/// program counter, all zero-initialized.
pub struct Registers {
    pub gpr: Vec<u64>,
    pub pc: u64,
}

impl Default for Registers {
    /// A register file with every register, and the program counter,
    /// at zero.
    fn default() -> (r: Registers)
        ensures
            r.wf(),
            r.pc == 0,
            forall|i: int| 0 <= i < GPR_COUNT ==> r.gpr@[i] == 0u64,
    {
        let mut gpr: Vec<u64> = Vec::new();
        let mut i: usize = 0;
        while i < GPR_COUNT
            invariant
                i <= GPR_COUNT,
                gpr@.len() == i,
                forall|j: int| 0 <= j < i ==> gpr@[j] == 0u64,
            decreases GPR_COUNT - i,
        {
            gpr.push(0);
            i = i + 1;
        }
        Registers { gpr, pc: 0 }
    }
}

impl Registers {
    /// A register file holds exactly the fixed bank of registers.
    pub open spec fn wf(self) -> bool {
        self.gpr@.len() == GPR_COUNT
    }

    /// Read a general-purpose register by index.
    pub fn read(&self, index: usize) -> (v: u64)
        requires
            self.wf(),
            index < GPR_COUNT,
        ensures
            v == self.gpr@[index as int],
    {
        self.gpr[index]
    }

    /// Write a general-purpose register by index. Index 0 is an
    /// ordinary writable register in this simplified model.
    pub fn write(&mut self, index: usize, value: u64)
        requires
            old(self).wf(),
            index < GPR_COUNT,
        ensures
            final(self).wf(),
            final(self).gpr@ == old(self).gpr@.update(index as int, value),
            final(self).pc == old(self).pc,
    {
        self.gpr[index] = value;
    }

    /// The index bound to a mnemonic, or `None` for an unrecognized
    /// name.
    pub fn index_of_name(name: &str) -> (r: Option<usize>)
        ensures
            match r {
                Some(i) => reg_name_index(name@) == Some(i as int),
                None => reg_name_index(name@) is None,
            },
    {
        if str_eq(name, "zero") {
            Some(0)
        } else if str_eq(name, "at") {
            Some(1)
        } else if str_eq(name, "v0") {
            Some(2)
        } else if str_eq(name, "v1") {
            Some(3)
        } else if str_eq(name, "a0") {
            Some(4)
        } else if str_eq(name, "a1") {
            Some(5)
        } else if str_eq(name, "a2") {
            Some(6)
        } else if str_eq(name, "a3") {
            Some(7)
        } else if str_eq(name, "t0") {
            Some(8)
        } else if str_eq(name, "t1") {
            Some(9)
        } else if str_eq(name, "t2") {
            Some(10)
        } else if str_eq(name, "t3") {
            Some(11)
        } else if str_eq(name, "t4") {
            Some(12)
        } else if str_eq(name, "t5") {
            Some(13)
        } else if str_eq(name, "t6") {
            Some(14)
        } else if str_eq(name, "t7") {
            Some(15)
        } else if str_eq(name, "s0") {
            Some(16)
        } else if str_eq(name, "s1") {
            Some(17)
        } else if str_eq(name, "s2") {
            Some(18)
        } else if str_eq(name, "s3") {
            Some(19)
        } else if str_eq(name, "s4") {
            Some(20)
        } else if str_eq(name, "s5") {
            Some(21)
        } else if str_eq(name, "s6") {
            Some(22)
        } else if str_eq(name, "s7") {
            Some(23)
        } else if str_eq(name, "t8") {
            Some(24)
        } else if str_eq(name, "t9") {
            Some(25)
        } else if str_eq(name, "k0") {
            Some(26)
        } else if str_eq(name, "k1") {
            Some(27)
        } else if str_eq(name, "gp") {
            Some(28)
        } else if str_eq(name, "sp") {
            Some(29)
        } else if str_eq(name, "fp") {
            Some(30)
        } else if str_eq(name, "ra") {
            Some(31)
        } else {
            None
        }
    }

    /// Read a register by symbolic name: the program counter under its
    /// reserved name, a general-purpose register under its mnemonic,
    /// `None` for an unrecognized name.
    pub fn read_by_name(&self, name: &str) -> (r: Option<u64>)
        requires
            self.wf(),
        ensures
            r == reg_lookup(self.gpr@, self.pc, name@),
    {
        if str_eq(name, "pc") {
            Some(self.pc)
        } else {
            match Self::index_of_name(name) {
                Some(i) => Some(self.read(i)),
                None => None,
            }
        }
    }

    /// Write a register by symbolic name. Returns whether the name was
    /// recognized; an unrecognized name changes nothing.
    pub fn write_by_name(&mut self, name: &str, value: u64) -> (ok: bool)
        requires
            old(self).wf(),
        ensures
            final(self).wf(),
            if name@ == "pc"@ {
                ok && final(self).pc == value && final(self).gpr@ == old(self).gpr@
            } else {
                match reg_name_index(name@) {
                    Some(i) => ok && final(self).gpr@ == old(self).gpr@.update(i, value)
                        && final(self).pc == old(self).pc,
                    None => !ok && *final(self) == *old(self),
                }
            },
    {
        if str_eq(name, "pc") {
            self.pc = value;
            true
        } else {
            match Self::index_of_name(name) {
                Some(i) => {
                    self.write(i, value);
                    true
                },
                None => false,
            }
        }
    }
}

} // verus!
