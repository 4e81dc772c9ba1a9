//! A linear-sweep disassembler for a subset of 32-bit x86 (IA-32) machine
//! code.
//!
//! Given a byte stream, the library reconstructs an ordered sequence of
//! assembly instructions and unknown-byte placeholders, laid out by byte
//! offset, with symbolic labels attached to any offset that another decoded
//! instruction references.

pub mod decode;
pub mod opcodes;
pub mod instruction;
pub mod operands;
pub mod output;
pub mod strutil;
