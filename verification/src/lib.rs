//! An Intel 8080 interpreter: a flat 64K memory bus, an opcode decoder,
//! an ALU with exact flag rules, and an execution engine driving 256
//! programmable I/O ports.

pub mod cpu;
pub mod device;
pub mod dram;
pub mod error;
pub mod instruction;
pub mod state;
pub mod utils;
