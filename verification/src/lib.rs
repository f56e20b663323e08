//! Instruction-execution core of an 8-bit (Z80-class) CPU emulator.
//!
//! The crate models a flat 64 KiB memory, the register file with its shadow
//! bank and flags register, the stateless register operations that the
//! instructions are built from, a closed catalog of instructions in four
//! decode namespaces, and the fetch-decode-execute step of the engine.
//! Every state change is specified against a ghost machine state
//! (`runtime::CpuState`) and proved.

pub mod dsk;
pub mod instruction_set;
pub mod memory;
pub mod runtime;
pub mod utils;
