//! A minimal processor shell: a program counter and nothing more.

use vstd::prelude::*;

verus! {

/// A bare CPU, holding only its program counter.
pub struct Cpu {
    pub pc: u64,
}

impl Cpu {
    /// A CPU whose program counter starts at zero.
    pub fn new() -> (r: Self)
        ensures
            r.pc == 0,
    {
        Self { pc: 0 }
    }
}

} // verus!
