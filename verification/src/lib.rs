//! A cycle-counting emulator core for 8080/Z80-class processors.
//!
//! The crate models the register file with its shadow copies, the eight
//! condition flags, a flat 64 KiB byte-addressable memory with modulo-0x10000
//! wraparound, the per-opcode metadata table, and the fetch/decode/execute
//! engine with its interrupt controller.  Every instruction handler carries a
//! contract that pins the exact register, flag, memory, program-counter and
//! cycle effects of the instruction.
//!
//! Rendering, input mapping and ROM file loading are host concerns: the host
//! owns port semantics and feeds plain bytes into [`cpu::Cpu`].

pub mod bits;
pub mod cpu;
pub mod engine;
pub mod instructions;
pub mod interconnect;
pub mod memory;
pub mod ops;
pub mod step;
pub mod util;
