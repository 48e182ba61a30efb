//! A cycle-level simulator of a classic five-stage RISC datapath
//! (fetch, decode, execute, memory access, write-back), modeled after
//! the MIPS architecture.
//!
//! The engine lets a caller load raw instruction words and register
//! values into a simulated machine and then drive execution either one
//! whole instruction at a time or one pipeline stage at a time, while
//! observing how control signals, the ALU, and memory update the
//! architectural state.

pub mod datapath;
pub mod mips;
