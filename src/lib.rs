//! Instruction-set emulator core for the 6502 family of 8-bit processors.
//!
//! - [`memory`]: a flat 64 KiB byte store with word access, program loading
//!   and an optional log of the bytes read.
//! - [`flags`]: the processor status byte as a set of named flags.
//! - [`operation`]: mnemonics, addressing modes and the opcode table.
//! - [`cpu`]: the fetch-decode-execute engine.
//! - [`laws`]: properties of the instruction semantics.
//!
//! Every executable function states its behaviour against a mathematical model
//! of the machine (`CpuState`, `MemoryState`) and is proved to meet it.
pub mod flags;
pub mod memory;
pub mod operation;
pub mod cpu;
pub mod laws;
