//! Instruction-execution core of a CHIP-8-style byte-code virtual machine.
//!
//! The machine has 4096 bytes of memory, sixteen 8-bit registers (the last
//! of which, VF, is reserved as the arithmetic flag), a sixteen-entry call
//! stack of 16-bit return addresses, and a program counter. `decode` turns a
//! 16-bit opcode into a structured instruction, and `CPU::step` executes one
//! fetch-decode-execute cycle, either continuing, halting, or stopping with
//! a fatal condition. `CPU::run` drives cycles until halt, fault, or an exhausted cycle budget.

pub mod cpu;
pub mod decode;
pub mod fault;
pub mod laws;
pub mod state;
