//! Byte-addressable memory with big-endian 32-bit word access.

use vstd::prelude::*;

use crate::datapath::Fault;

verus! {

/// Number of bytes the simulated memory holds.
pub const CAPACITY: usize = 16;

/// A fixed-capacity, zero-initialized, byte-addressable store.
///
/// Words are kept big-endian: the most significant byte of a word sits
/// at the lowest of its four addresses. A word access is valid exactly
/// when `address + 3` is still within the memory; anything else is an
/// out-of-bounds fault.
pub struct Memory {
    pub memory: Vec<u8>,
}

impl View for Memory {
    type V = Seq<u8>;

    open spec fn view(&self) -> Seq<u8> {
        self.memory@
    }
}

/// Byte `k` (0 = most significant) of the big-endian encoding of `w`.
pub open spec fn word_byte(w: u32, k: int) -> u8
    recommends
        0 <= k < 4,
{
    if k == 0 {
        ((w >> 24) & 0xFF) as u8
    } else if k == 1 {
        ((w >> 16) & 0xFF) as u8
    } else if k == 2 {
        ((w >> 8) & 0xFF) as u8
    } else {
        (w & 0xFF) as u8
    }
}

/// The word assembled, big-endian, from four bytes.
pub open spec fn word_from_bytes(b0: u8, b1: u8, b2: u8, b3: u8) -> u32 {
    ((b0 as u32) << 24) | ((b1 as u32) << 16) | ((b2 as u32) << 8) | (b3 as u32)
}

/// `mem` after the big-endian bytes of `w` are written at `a .. a + 4`.
pub open spec fn spec_store_word(mem: Seq<u8>, a: int, w: u32) -> Seq<u8> {
    mem.update(a, word_byte(w, 0)).update(a + 1, word_byte(w, 1)).update(
        a + 2,
        word_byte(w, 2),
    ).update(a + 3, word_byte(w, 3))
}

/// The word read, big-endian, from `mem` at `a .. a + 4`.
pub open spec fn spec_load_word(mem: Seq<u8>, a: int) -> u32 {
    word_from_bytes(mem[a], mem[a + 1], mem[a + 2], mem[a + 3])
}

impl Default for Memory {
    /// A zeroed memory of the fixed capacity.
    fn default() -> (r: Memory)
        ensures
            r@.len() == CAPACITY,
            forall|i: int| 0 <= i < CAPACITY ==> r@[i] == 0u8,
    {
        let mut bytes: Vec<u8> = Vec::new();
        let mut i: usize = 0;
        while i < CAPACITY
            invariant
                i <= CAPACITY,
                bytes@.len() == i,
                forall|j: int| 0 <= j < i ==> bytes@[j] == 0u8,
            decreases CAPACITY - i,
        {
            bytes.push(0);
            i = i + 1;
        }
        Memory { memory: bytes }
    }
}

impl Memory {
    /// Write the 32-bit word `data`, big-endian, at `address .. address + 4`.
    ///
    /// Fails, leaving memory unchanged, exactly when the four bytes do
    /// not all fit within the memory.
    pub fn store_word(&mut self, address: u64, data: u32) -> (r: Result<(), Fault>)
        ensures
            match r {
                Ok(()) => address + 3 < old(self)@.len() && final(self)@ == spec_store_word(
                    old(self)@,
                    address as int,
                    data,
                ),
                Err(f) => f is OutOfBoundsMemoryAccess && !(address + 3 < old(self)@.len())
                    && final(self)@ == old(self)@,
            },
    {
        let cap = self.memory.len();
        if cap < 4 || address > (cap - 4) as u64 {
            return Err(Fault::OutOfBoundsMemoryAccess);
        }
        let a = address as usize;
        self.memory[a] = ((data >> 24) & 0xFF) as u8;
        self.memory[a + 1] = ((data >> 16) & 0xFF) as u8;
        self.memory[a + 2] = ((data >> 8) & 0xFF) as u8;
        self.memory[a + 3] = (data & 0xFF) as u8;
        Ok(())
    }

    /// Read the 32-bit word stored, big-endian, at `address .. address + 4`.
    ///
    /// Fails exactly when the four bytes do not all fit within the
    /// memory.
    pub fn load_word(&self, address: u64) -> (r: Result<u32, Fault>)
        ensures
            match r {
                Ok(w) => address + 3 < self@.len() && w == spec_load_word(self@, address as int),
                Err(f) => f is OutOfBoundsMemoryAccess && !(address + 3 < self@.len()),
            },
    {
        let cap = self.memory.len();
        if cap < 4 || address > (cap - 4) as u64 {
            return Err(Fault::OutOfBoundsMemoryAccess);
        }
        let a = address as usize;
        let b0 = self.memory[a];
        let b1 = self.memory[a + 1];
        let b2 = self.memory[a + 2];
        let b3 = self.memory[a + 3];
        Ok(((b0 as u32) << 24) | ((b1 as u32) << 16) | ((b2 as u32) << 8) | (b3 as u32))
    }
}

/// Word round-trip: loading a word right after storing it, at any
/// in-bounds address, yields exactly the stored value.
pub proof fn lemma_store_load_round_trip(mem: Seq<u8>, a: int, v: u32)
    requires
        0 <= a,
        a + 3 < mem.len(),
    ensures
        spec_load_word(spec_store_word(mem, a, v), a) == v,
{
    let m2 = spec_store_word(mem, a, v);
    assert(m2[a] == word_byte(v, 0));
    assert(m2[a + 1] == word_byte(v, 1));
    assert(m2[a + 2] == word_byte(v, 2));
    assert(m2[a + 3] == word_byte(v, 3));
    assert(((((v >> 24) & 0xFF) as u8 as u32) << 24) | ((((v >> 16) & 0xFF) as u8 as u32) << 16)
        | ((((v >> 8) & 0xFF) as u8 as u32) << 8) | ((v & 0xFF) as u8 as u32) == v)
        by (bit_vector);
}

} // verus!
