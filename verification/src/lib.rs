//! A cycle-accurate MOS 6502 CPU core with a bus-routing abstraction and a
//! hierarchical tracing facility.
//!
//! The CPU is a ticked state machine: every call to `tick` consumes the byte
//! currently on the data bus, performs exactly one cycle of work, and returns
//! the one memory access the processor drives on that clock. Instruction
//! semantics are split into pure operation kernels, per-cycle actions, and
//! static cycle sequences, exactly as the silicon sequences its work.

pub mod bus;
pub mod cpu;
pub mod debug;
pub mod hexfmt;
pub mod mem;
pub mod nes_file;
pub mod psr;
pub mod tracer;
