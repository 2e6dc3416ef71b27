//! A small stack-based bytecode virtual machine with a disassembler.
//!
//! Programs are flat byte sequences: a one-byte opcode followed by its
//! operand (an 8-byte little-endian literal or address, or a length-prefixed
//! UTF-8 name). The interpreter's behaviour is given by the spec functions in
//! `semantics`, and every executable function is proved against them.
pub mod opcode;
pub mod value;
pub mod text;
pub mod error;
pub mod memory;
pub mod callframe;
pub mod decode;
pub mod disassembler;
pub mod semantics;
pub mod vm;
pub mod builder;
pub mod laws;
