//! Codec for the 16-bit-per-word instruction encoding of a small 8-bit
//! microcontroller core: bit-field operand types, the special-function
//! register namespace, the instruction model, the word decoder, the partial
//! encoder, and the disassembly renderer.

pub mod ast;
pub mod bits;
pub mod opcode;
pub mod parser;
pub mod regs;
pub mod render;
pub mod text;
pub mod types;
