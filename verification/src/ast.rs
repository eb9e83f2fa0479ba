//! Source-level program structure: the decoded word stream and the
//! statements an assembly source file consists of.

use vstd::prelude::*;

use crate::opcode::OpCode;

verus! {

/// A program as a flat sequence of 16-bit machine words, in word order.
pub struct Program {
    /// The machine words, one instruction each.
    pub code: Vec<u16>,
}

/// One statement of an assembly source file.
pub enum Statement {
    /// A file inclusion directive.
    Include(String),
    /// An origin directive setting the word address that follows.
    Org(u16),
    /// A literal 16-bit word placed as-is.
    RawWord(u16),
    /// A textual macro definition: name and replacement.
    Define(String, String),
    /// A named label.
    Label(String),
    /// A decoded instruction.
    Instruction(OpCode),
    /// The end-of-source marker.
    End,
    /// A line kept verbatim, not parsed.
    RawAssembly(String),
}

} // verus!
