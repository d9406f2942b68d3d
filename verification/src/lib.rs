//! An Intel 8080-class CPU emulator with a verified instruction engine.
//!
//! The crate has two components built over one shared opcode-length table:
//! a disassembler ([`disasm`]) that renders one instruction per line without
//! touching any state, and a CPU engine ([`emulator`]) that owns the
//! architectural state (registers, flags, program counter, stack pointer and
//! a flat memory buffer) and executes one instruction per `step` call.
//!
//! The engine's behaviour is pinned down by a specification-level interpreter
//! ([`machine::step_spec`]) over a mathematical model of the machine state;
//! `step` is proved to implement it exactly, including the address reported
//! by every bounds fault and the opcode reported by every decode fault.

pub mod disasm;
pub mod emulator;
pub mod laws;
pub mod machine;
pub mod optable;
