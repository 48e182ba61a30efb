//! The MIPS-flavored implementation of the datapath engine: memory,
//! register file, control signals, and the stage orchestrator.

pub mod control_signals;
pub mod cpu;
pub mod datapath;
pub mod memory;
pub mod model;
pub mod registers;
