//! An instruction-level interpreter of the NMOS 6502 processor.

pub mod alu;
pub mod bus_interface;
pub mod opcodes;
pub mod processor_status;
pub mod semantics;
pub mod nmos6502;
