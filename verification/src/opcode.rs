//! The instruction model and the word codec: a closed set of instruction
//! variants, the 16-bit-word decoder, the partial encoder, and the
//! disassembly renderer.
//!
//! The decoder is an ordered rule table: the high byte of the word selects
//! a coarse opcode class, and within class `0x00` a further dispatch occurs
//! on masked low-byte bit groups. Several masks overlap, so the rules are
//! evaluated in a fixed priority order and the first matching rule wins.
//! That order is part of the encoding and must not be rearranged.

use vstd::prelude::*;

use crate::bits::{
    lemma_u10_from_wide_value, lemma_u12_from_wide_value, lemma_u2_from_wide_value,
    lemma_u2_value_injective, lemma_u3_from_wide_value, lemma_u3_value_injective,
    lemma_u7_from_wide_value, lemma_u9_from_wide_value, U10, U12, U2, U3, U7, U9,
};
use crate::types::{
    spec_dest_of_bool, BitIn, BitInC, BitOut, Dest, Label, Reg, WaitBit,
};

verus! {

/// An instruction of the RISC8B core. Each variant corresponds to one
/// mnemonic/operand-shape pair; `Unknown` is the catch-all a caller may
/// substitute for a word that matched no decode rule.
#[derive(Clone, Copy, PartialEq, Eq, Structural, Debug)]
pub enum OpCode {
    /// NOP
    Nop,
    /// CLRWDT
    ClearWatchDog,
    /// SLEEPX k2
    Sleep(U2),
    /// WAITB b
    WaitB(WaitBit),
    /// RCODE k2
    ReadCode(U2),
    /// PUSHA: push all
    PushA,
    /// POPA: pop from TOS
    PopA,
    /// PUSHA2
    PushIndirAddr2,
    /// POPA2
    PopIndirAddr2,
    /// RET
    Return,
    /// RETZ, setting the zero flag
    ReturnOk,
    /// RETIE: return from interrupt
    ReturnInt,
    /// RETL k
    ReturnImm(u8),
    /// RETLN k, clearing the zero flag
    ReturnErrImm(u8),
    /// CLRA
    ClearA,
    /// CLR f
    Clear(Reg<u8>),
    /// MOVA F: move A to F
    MoveA(Reg<U9>),
    /// MOV F / MOV F,A
    Move(Reg<U9>, Dest),
    /// INC f,d
    Inc(Reg<u8>, Dest),
    /// DEC f,d
    Dec(Reg<u8>, Dest),
    /// INCSZ f,d
    IncAndSkipIfZero(Reg<u8>, Dest),
    /// DECSZ f,d
    DecAndSkipIfZero(Reg<u8>, Dest),
    /// SWAP f,d
    SwapHalfBytes(Reg<u8>, Dest),
    /// AND f,d
    And(Reg<u8>, Dest),
    /// IOR f,d
    Or(Reg<u8>, Dest),
    /// XOR f,d
    Xor(Reg<u8>, Dest),
    /// ADD f,d
    Add(Reg<u8>, Dest),
    /// SUB f,d
    Sub(Reg<u8>, Dest),
    /// RCL f,d
    RotateLeftWithCarry(Reg<u8>, Dest),
    /// RCR f,d
    RotateRightWithCarry(Reg<u8>, Dest),
    /// MOVIP k9
    MoveImmToIndirAddr1(U9),
    /// MOVIA k10
    MoveImmToIndirAddr2(U10),
    /// MOVA1F k
    MoveImmToPortDir(u8),
    /// MOVA2F k
    MoveImmToPortIo(u8),
    /// MOVA1P k
    MoveImmToP1(u8),
    /// MOVA2P k
    MoveImmToP2(u8),
    /// MOVL k
    MoveImm(u8),
    /// ANDL k
    AndImm(u8),
    /// IORL k
    OrImm(u8),
    /// XORL k
    XorImm(u8),
    /// ADDL k
    AddImm(u8),
    /// SUBL k
    SubImm(u8),
    /// CMPLN k
    CompareImmNegate(u8),
    /// CMPL k
    CompareImm(u8),
    /// BC f,b
    BitClear(Reg<u8>, U3),
    /// BS f,b
    BitSet(Reg<u8>, U3),
    /// BTSC f,b
    BitTestSkipIfClear(Reg<u8>, U3),
    /// BTSS f,b
    BitTestSkipIfSet(Reg<u8>, U3),
    /// BCTC a
    BitToC(BitInC),
    /// BP1F a,b
    BitOut1(BitOut, U3),
    /// BP2F a,b
    BitOut2(BitOut, U3),
    /// BG1F a,b
    BitIn1(BitIn, U3),
    /// BG2F a,b
    BitIn2(BitIn, U3),
    /// JMP k12
    Jump(Label<U12>),
    /// CALL k12
    Call(Label<U12>),
    /// JNZ k10
    JumpIfNotZero(Label<U10>),
    /// JZ k10
    JumpIfZero(Label<U10>),
    /// JNC k10
    JumpIfNotCarry(Label<U10>),
    /// JC k10
    JumpIfCarry(Label<U10>),
    /// CMPZ K7,k: jump to the 8-bit label if A equals the 7-bit constant
    JumpIfEqual(U7, Label<u8>),
    /// A word that matched no decode rule.
    Unknown(u16),
}

/// A structurally valid instruction that has no defined byte encoding yet,
/// or the `Unknown` catch-all offered to the renderer: surfaced to the
/// caller instead of fabricating a plausible-looking result.
#[derive(Clone, Copy, PartialEq, Eq, Structural, Debug)]
pub struct UnsupportedError {}

/// A word that matched no rule of the decode table: a known incompleteness
/// of the table, reported with the offending word so the caller can decide
/// per-word recovery.
#[derive(Clone, Copy, PartialEq, Eq, Structural, Debug)]
pub struct DecodeError {
    /// The 16-bit word that matched no decode rule.
    pub word: u16,
}

/// The decode table, first matching rule first. `Ok` for every word some
/// rule covers; `Err` carries a word that no rule covers.
pub open spec fn spec_decode(word: u16) -> Result<OpCode, DecodeError> {
    let x = (word >> 8) as u8;
    let k = (word & 0xFF) as u8;
    if x == 0x00 && k & 0xFC == 0x00 {
        Ok(OpCode::Nop)
    } else if x == 0x00 && k & 0xFC == 0x08 {
        Ok(OpCode::ClearWatchDog)
    } else if x == 0x00 && k & 0xFC == 0x0C {
        Ok(OpCode::Sleep(U2::spec_from_wide(k)))
    } else if x == 0x00 && k & 0xFC == 0x20 {
        Ok(OpCode::PushA)
    } else if x == 0x00 && k & 0xFC == 0x24 {
        Ok(OpCode::PopA)
    } else if x == 0x00 && k & 0xFC == 0x28 {
        Ok(OpCode::PushIndirAddr2)
    } else if x == 0x00 && k & 0xFC == 0x2C {
        Ok(OpCode::PopIndirAddr2)
    } else if x == 0x00 && k & 0xFC == 0x30 {
        Ok(OpCode::Return)
    } else if x == 0x00 && k & 0xFC == 0x34 {
        Ok(OpCode::ReturnOk)
    } else if x == 0x00 && k & 0xFC == 0x38 {
        Ok(OpCode::ReturnInt)
    } else if x == 0x00 && k & 0xF8 == 0x10 {
        Ok(OpCode::WaitB(WaitBit(U3::spec_from_wide(k))))
    } else if x == 0x00 && k & 0xFC == 0x04 {
        Ok(OpCode::ClearA)
    } else if x == 0x00 && k & 0xFC == 0x1C {
        Ok(OpCode::BitToC(BitInC(U2::spec_from_wide(k))))
    } else if x == 0x00 && k & 0xE0 == 0x80 {
        Ok(OpCode::BitOut1(BitOut(U2::spec_from_wide(k >> 3)), U3::spec_from_wide(k)))
    } else if x == 0x00 && k & 0xE0 == 0xA0 {
        Ok(OpCode::BitOut2(BitOut(U2::spec_from_wide(k >> 3)), U3::spec_from_wide(k)))
    } else if x == 0x00 && k & 0xE0 == 0xC0 {
        Ok(OpCode::BitIn1(BitIn(U2::spec_from_wide(k >> 3)), U3::spec_from_wide(k)))
    } else if x == 0x00 && k & 0xE0 == 0xE0 {
        Ok(OpCode::BitIn2(BitIn(U2::spec_from_wide(k >> 3)), U3::spec_from_wide(k)))
    } else if x == 0x00 && k & 0xFC == 0x18 {
        Ok(OpCode::ReadCode(U2::spec_from_wide(k)))
    } else if x == 0x01 {
        Ok(OpCode::Clear(Reg(k)))
    } else if x == 0x28 {
        Ok(OpCode::MoveImm(k))
    } else if x == 0x29 {
        Ok(OpCode::AndImm(k))
    } else if x == 0x2A {
        Ok(OpCode::OrImm(k))
    } else if x == 0x2B {
        Ok(OpCode::XorImm(k))
    } else if x == 0x2C {
        Ok(OpCode::AddImm(k))
    } else if x == 0x2D {
        Ok(OpCode::SubImm(k))
    } else if x == 0x2E {
        Ok(OpCode::CompareImmNegate(k))
    } else if x == 0x2F {
        Ok(OpCode::CompareImm(k))
    } else if x == 0x20 {
        Ok(OpCode::ReturnImm(k))
    } else if x == 0x21 {
        Ok(OpCode::ReturnErrImm(k))
    } else if x == 0x23 {
        Ok(OpCode::MoveImmToPortDir(k))
    } else if x == 0x25 {
        Ok(OpCode::MoveImmToPortIo(k))
    } else if x == 0x26 {
        Ok(OpCode::MoveImmToP2(k))
    } else if x == 0x27 {
        // The encoding table lists the same target for this opcode byte as
        // for 0x26, so MoveImmToP1 is never produced by decoding. The
        // duplication is deliberate: which of the two mappings the hardware
        // intends is not independently documented, so neither is "fixed".
        Ok(OpCode::MoveImmToP2(k))
    } else if x & 0xFE == 0x22 {
        Ok(OpCode::MoveImmToIndirAddr1(U9::spec_from_wide(word)))
    } else if x & 0xFC == 0x24 {
        Ok(OpCode::MoveImmToIndirAddr2(U10::spec_from_wide(word)))
    } else if x & 0xFE == 0x10 {
        Ok(OpCode::MoveA(Reg(U9::spec_from_wide(word))))
    } else if x & 0xEE == 0x02 {
        Ok(OpCode::Move(Reg(U9::spec_from_wide(word)), spec_dest_of_bool(x & 0x10 != 0)))
    } else if x & 0xEF == 0x04 {
        Ok(OpCode::Inc(Reg(k), spec_dest_of_bool(x & 0x10 != 0)))
    } else if x & 0xEF == 0x05 {
        Ok(OpCode::Dec(Reg(k), spec_dest_of_bool(x & 0x10 != 0)))
    } else if x & 0xEF == 0x06 {
        Ok(OpCode::IncAndSkipIfZero(Reg(k), spec_dest_of_bool(x & 0x10 != 0)))
    } else if x & 0xEF == 0x07 {
        Ok(OpCode::DecAndSkipIfZero(Reg(k), spec_dest_of_bool(x & 0x10 != 0)))
    } else if x & 0xEF == 0x08 {
        Ok(OpCode::SwapHalfBytes(Reg(k), spec_dest_of_bool(x & 0x10 != 0)))
    } else if x & 0xEF == 0x09 {
        Ok(OpCode::And(Reg(k), spec_dest_of_bool(x & 0x10 != 0)))
    } else if x & 0xEF == 0x0A {
        Ok(OpCode::Or(Reg(k), spec_dest_of_bool(x & 0x10 != 0)))
    } else if x & 0xEF == 0x0B {
        Ok(OpCode::Xor(Reg(k), spec_dest_of_bool(x & 0x10 != 0)))
    } else if x & 0xEF == 0x0C {
        Ok(OpCode::Add(Reg(k), spec_dest_of_bool(x & 0x10 != 0)))
    } else if x & 0xEF == 0x0D {
        Ok(OpCode::Sub(Reg(k), spec_dest_of_bool(x & 0x10 != 0)))
    } else if x & 0xEF == 0x0E {
        Ok(OpCode::RotateLeftWithCarry(Reg(k), spec_dest_of_bool(x & 0x10 != 0)))
    } else if x & 0xEF == 0x0F {
        Ok(OpCode::RotateRightWithCarry(Reg(k), spec_dest_of_bool(x & 0x10 != 0)))
    } else if x & 0xF0 == 0x60 {
        Ok(OpCode::Jump(Label(U12::spec_from_wide(word))))
    } else if x & 0xF0 == 0x70 {
        Ok(OpCode::Call(Label(U12::spec_from_wide(word))))
    } else if x & 0xFC == 0x30 {
        Ok(OpCode::JumpIfZero(Label(U10::spec_from_wide(word))))
    } else if x & 0xFC == 0x34 {
        Ok(OpCode::JumpIfNotZero(Label(U10::spec_from_wide(word))))
    } else if x & 0xFC == 0x38 {
        Ok(OpCode::JumpIfCarry(Label(U10::spec_from_wide(word))))
    } else if x & 0xFC == 0x3C {
        Ok(OpCode::JumpIfNotCarry(Label(U10::spec_from_wide(word))))
    } else if x & 0x80 == 0x80 {
        Ok(OpCode::JumpIfEqual(U7::spec_from_wide(x), Label(k)))
    } else if x & 0xF8 == 0x40 {
        Ok(OpCode::BitClear(Reg(k), U3::spec_from_wide(x)))
    } else if x & 0xF8 == 0x48 {
        Ok(OpCode::BitSet(Reg(k), U3::spec_from_wide(x)))
    } else if x & 0xF8 == 0x50 {
        Ok(OpCode::BitTestSkipIfClear(Reg(k), U3::spec_from_wide(x)))
    } else if x & 0xF8 == 0x58 {
        Ok(OpCode::BitTestSkipIfSet(Reg(k), U3::spec_from_wide(x)))
    } else {
        Err(DecodeError { word })
    }
}

impl OpCode {
    /// Decodes one 16-bit word by the rule table, first matching rule
    /// first. Returns the decoded instruction, or the offending word for
    /// the bit patterns the table does not yet cover.
    pub fn from_word(word: u16) -> (r: Result<OpCode, DecodeError>)
        ensures
            r == spec_decode(word),
    {
        let x = (word >> 8) as u8;
        let k = (word & 0xFF) as u8;
        if x == 0x00 && k & 0xFC == 0x00 {
            Ok(OpCode::Nop)
        } else if x == 0x00 && k & 0xFC == 0x08 {
            Ok(OpCode::ClearWatchDog)
        } else if x == 0x00 && k & 0xFC == 0x0C {
            Ok(OpCode::Sleep(U2::from_wide(k)))
        } else if x == 0x00 && k & 0xFC == 0x20 {
            Ok(OpCode::PushA)
        } else if x == 0x00 && k & 0xFC == 0x24 {
            Ok(OpCode::PopA)
        } else if x == 0x00 && k & 0xFC == 0x28 {
            Ok(OpCode::PushIndirAddr2)
        } else if x == 0x00 && k & 0xFC == 0x2C {
            Ok(OpCode::PopIndirAddr2)
        } else if x == 0x00 && k & 0xFC == 0x30 {
            Ok(OpCode::Return)
        } else if x == 0x00 && k & 0xFC == 0x34 {
            Ok(OpCode::ReturnOk)
        } else if x == 0x00 && k & 0xFC == 0x38 {
            Ok(OpCode::ReturnInt)
        } else if x == 0x00 && k & 0xF8 == 0x10 {
            Ok(OpCode::WaitB(WaitBit(U3::from_wide(k))))
        } else if x == 0x00 && k & 0xFC == 0x04 {
            Ok(OpCode::ClearA)
        } else if x == 0x00 && k & 0xFC == 0x1C {
            Ok(OpCode::BitToC(BitInC(U2::from_wide(k))))
        } else if x == 0x00 && k & 0xE0 == 0x80 {
            Ok(OpCode::BitOut1(BitOut(U2::from_wide(k >> 3)), U3::from_wide(k)))
        } else if x == 0x00 && k & 0xE0 == 0xA0 {
            Ok(OpCode::BitOut2(BitOut(U2::from_wide(k >> 3)), U3::from_wide(k)))
        } else if x == 0x00 && k & 0xE0 == 0xC0 {
            Ok(OpCode::BitIn1(BitIn(U2::from_wide(k >> 3)), U3::from_wide(k)))
        } else if x == 0x00 && k & 0xE0 == 0xE0 {
            Ok(OpCode::BitIn2(BitIn(U2::from_wide(k >> 3)), U3::from_wide(k)))
        } else if x == 0x00 && k & 0xFC == 0x18 {
            Ok(OpCode::ReadCode(U2::from_wide(k)))
        } else if x == 0x01 {
            Ok(OpCode::Clear(Reg(k)))
        } else if x == 0x28 {
            Ok(OpCode::MoveImm(k))
        } else if x == 0x29 {
            Ok(OpCode::AndImm(k))
        } else if x == 0x2A {
            Ok(OpCode::OrImm(k))
        } else if x == 0x2B {
            Ok(OpCode::XorImm(k))
        } else if x == 0x2C {
            Ok(OpCode::AddImm(k))
        } else if x == 0x2D {
            Ok(OpCode::SubImm(k))
        } else if x == 0x2E {
            Ok(OpCode::CompareImmNegate(k))
        } else if x == 0x2F {
            Ok(OpCode::CompareImm(k))
        } else if x == 0x20 {
            Ok(OpCode::ReturnImm(k))
        } else if x == 0x21 {
            Ok(OpCode::ReturnErrImm(k))
        } else if x == 0x23 {
            Ok(OpCode::MoveImmToPortDir(k))
        } else if x == 0x25 {
            Ok(OpCode::MoveImmToPortIo(k))
        } else if x == 0x26 {
            Ok(OpCode::MoveImmToP2(k))
        } else if x == 0x27 {
            Ok(OpCode::MoveImmToP2(k))
        } else if x & 0xFE == 0x22 {
            Ok(OpCode::MoveImmToIndirAddr1(U9::from_wide(word)))
        } else if x & 0xFC == 0x24 {
            Ok(OpCode::MoveImmToIndirAddr2(U10::from_wide(word)))
        } else if x & 0xFE == 0x10 {
            Ok(OpCode::MoveA(Reg(U9::from_wide(word))))
        } else if x & 0xEE == 0x02 {
            Ok(OpCode::Move(Reg(U9::from_wide(word)), Dest::from(x & 0x10 != 0)))
        } else if x & 0xEF == 0x04 {
            Ok(OpCode::Inc(Reg(k), Dest::from(x & 0x10 != 0)))
        } else if x & 0xEF == 0x05 {
            Ok(OpCode::Dec(Reg(k), Dest::from(x & 0x10 != 0)))
        } else if x & 0xEF == 0x06 {
            Ok(OpCode::IncAndSkipIfZero(Reg(k), Dest::from(x & 0x10 != 0)))
        } else if x & 0xEF == 0x07 {
            Ok(OpCode::DecAndSkipIfZero(Reg(k), Dest::from(x & 0x10 != 0)))
        } else if x & 0xEF == 0x08 {
            Ok(OpCode::SwapHalfBytes(Reg(k), Dest::from(x & 0x10 != 0)))
        } else if x & 0xEF == 0x09 {
            Ok(OpCode::And(Reg(k), Dest::from(x & 0x10 != 0)))
        } else if x & 0xEF == 0x0A {
            Ok(OpCode::Or(Reg(k), Dest::from(x & 0x10 != 0)))
        } else if x & 0xEF == 0x0B {
            Ok(OpCode::Xor(Reg(k), Dest::from(x & 0x10 != 0)))
        } else if x & 0xEF == 0x0C {
            Ok(OpCode::Add(Reg(k), Dest::from(x & 0x10 != 0)))
        } else if x & 0xEF == 0x0D {
            Ok(OpCode::Sub(Reg(k), Dest::from(x & 0x10 != 0)))
        } else if x & 0xEF == 0x0E {
            Ok(OpCode::RotateLeftWithCarry(Reg(k), Dest::from(x & 0x10 != 0)))
        } else if x & 0xEF == 0x0F {
            Ok(OpCode::RotateRightWithCarry(Reg(k), Dest::from(x & 0x10 != 0)))
        } else if x & 0xF0 == 0x60 {
            Ok(OpCode::Jump(Label(U12::from_wide(word))))
        } else if x & 0xF0 == 0x70 {
            Ok(OpCode::Call(Label(U12::from_wide(word))))
        } else if x & 0xFC == 0x30 {
            Ok(OpCode::JumpIfZero(Label(U10::from_wide(word))))
        } else if x & 0xFC == 0x34 {
            Ok(OpCode::JumpIfNotZero(Label(U10::from_wide(word))))
        } else if x & 0xFC == 0x38 {
            Ok(OpCode::JumpIfCarry(Label(U10::from_wide(word))))
        } else if x & 0xFC == 0x3C {
            Ok(OpCode::JumpIfNotCarry(Label(U10::from_wide(word))))
        } else if x & 0x80 == 0x80 {
            Ok(OpCode::JumpIfEqual(U7::from_wide(x), Label(k)))
        } else if x & 0xF8 == 0x40 {
            Ok(OpCode::BitClear(Reg(k), U3::from_wide(x)))
        } else if x & 0xF8 == 0x48 {
            Ok(OpCode::BitSet(Reg(k), U3::from_wide(x)))
        } else if x & 0xF8 == 0x50 {
            Ok(OpCode::BitTestSkipIfClear(Reg(k), U3::from_wide(x)))
        } else if x & 0xF8 == 0x58 {
            Ok(OpCode::BitTestSkipIfSet(Reg(k), U3::from_wide(x)))
        } else {
            Err(DecodeError { word })
        }
    }
}

/// Whether this instruction currently has a defined byte encoding. The
/// encoder is deliberately partial: everything else must signal rather
/// than fabricate a plausible-looking word.
pub open spec fn spec_encodable(op: OpCode) -> bool {
    match op {
        OpCode::Nop => true,
        OpCode::ClearWatchDog => true,
        OpCode::Sleep(_) => true,
        OpCode::WaitB(_) => true,
        OpCode::PushA => true,
        OpCode::PopA => true,
        _ => false,
    }
}

/// The byte pair of an encodable instruction, high byte first. Empty for
/// instructions without a defined encoding.
pub open spec fn spec_encode(op: OpCode) -> Seq<u8> {
    match op {
        OpCode::Nop => seq![0u8, 0u8],
        OpCode::ClearWatchDog => seq![0u8, 0x08u8],
        OpCode::Sleep(k2) => seq![0u8, 0x0Cu8 | (k2.spec_value() & 0b11)],
        OpCode::WaitB(b) => seq![0u8, 0x10u8 | b.0.spec_value()],
        OpCode::PushA => seq![0u8, 0x20u8],
        OpCode::PopA => seq![0u8, 0x24u8],
        _ => Seq::empty(),
    }
}

/// Well-formedness of an instruction value: every bit-field operand is
/// within its declared width. Every instruction built by the decoder or
/// through the bit-field constructors satisfies this.
pub open spec fn spec_wf(op: OpCode) -> bool {
    match op {
        OpCode::Sleep(k2) => k2.inv(),
        OpCode::WaitB(b) => b.0.inv(),
        OpCode::ReadCode(k2) => k2.inv(),
        OpCode::MoveA(f) => f.0.inv(),
        OpCode::Move(f, _) => f.0.inv(),
        OpCode::MoveImmToIndirAddr1(j) => j.inv(),
        OpCode::MoveImmToIndirAddr2(k) => k.inv(),
        OpCode::BitClear(_, b) => b.inv(),
        OpCode::BitSet(_, b) => b.inv(),
        OpCode::BitTestSkipIfClear(_, b) => b.inv(),
        OpCode::BitTestSkipIfSet(_, b) => b.inv(),
        OpCode::BitToC(a) => a.0.inv(),
        OpCode::BitOut1(a, b) => a.0.inv() && b.inv(),
        OpCode::BitOut2(a, b) => a.0.inv() && b.inv(),
        OpCode::BitIn1(a, b) => a.0.inv() && b.inv(),
        OpCode::BitIn2(a, b) => a.0.inv() && b.inv(),
        OpCode::Jump(l) => l.0.inv(),
        OpCode::Call(l) => l.0.inv(),
        OpCode::JumpIfNotZero(l) => l.0.inv(),
        OpCode::JumpIfZero(l) => l.0.inv(),
        OpCode::JumpIfNotCarry(l) => l.0.inv(),
        OpCode::JumpIfCarry(l) => l.0.inv(),
        OpCode::JumpIfEqual(k7, _) => k7.inv(),
        _ => true,
    }
}

/// The 16-bit word formed from a high byte and a low byte.
pub open spec fn spec_word_from_bytes(hi: u8, lo: u8) -> u16 {
    ((hi as u16) << 8) | (lo as u16)
}

/// Joins a high byte and a low byte into one 16-bit word.
pub fn word_from_bytes(hi: u8, lo: u8) -> (r: u16)
    ensures
        r == spec_word_from_bytes(hi, lo),
{
    ((hi as u16) << 8) | (lo as u16)
}

impl OpCode {
    /// Encodes this instruction as its byte pair, high byte first. Only a
    /// subset of the instruction set has a defined encoding; everything
    /// else is surfaced as unsupported, never silently zero-filled.
    pub fn to_bytes(&self) -> (r: Result<[u8; 2], UnsupportedError>)
        ensures
            r is Ok <==> spec_encodable(*self),
            r is Ok ==> r->Ok_0@ == spec_encode(*self),
    {
        match self {
            OpCode::Nop => {
                let bytes: [u8; 2] = [0x00, 0x00];
                proof {
                    assert(bytes@ =~= spec_encode(*self));
                }
                Ok(bytes)
            },
            OpCode::ClearWatchDog => {
                let bytes: [u8; 2] = [0x00, 0x08];
                proof {
                    assert(bytes@ =~= spec_encode(*self));
                }
                Ok(bytes)
            },
            OpCode::Sleep(k2) => {
                let bytes: [u8; 2] = [0x00, 0x0C | (k2.value() & 0b11)];
                proof {
                    assert(bytes@ =~= spec_encode(*self));
                }
                Ok(bytes)
            },
            OpCode::WaitB(b) => {
                let bytes: [u8; 2] = [0x00, 0x10 | b.0.value()];
                proof {
                    assert(bytes@ =~= spec_encode(*self));
                }
                Ok(bytes)
            },
            OpCode::PushA => {
                let bytes: [u8; 2] = [0x00, 0x20];
                proof {
                    assert(bytes@ =~= spec_encode(*self));
                }
                Ok(bytes)
            },
            OpCode::PopA => {
                let bytes: [u8; 2] = [0x00, 0x24];
                proof {
                    assert(bytes@ =~= spec_encode(*self));
                }
                Ok(bytes)
            },
            _ => Err(UnsupportedError {}),
        }
    }
}

/// Round trip: decoding the byte pair of any well-formed encodable
/// instruction yields that instruction back, operand values included.
pub proof fn lemma_encode_decode_round_trip(op: OpCode)
    requires
        spec_encodable(op),
        spec_wf(op),
    ensures
        spec_decode(spec_word_from_bytes(spec_encode(op)[0], spec_encode(op)[1]))
            == Ok::<OpCode, DecodeError>(op),
{
    match op {
        OpCode::Nop => {
            assert({
                let w = spec_word_from_bytes(0, 0);
                (w >> 8) as u8 == 0 && ((w & 0xFF) as u8) & 0xFC == 0x00
            }) by (bit_vector);
        },
        OpCode::ClearWatchDog => {
            assert({
                let w = spec_word_from_bytes(0, 0x08);
                (w >> 8) as u8 == 0 && (w & 0xFF) as u8 == 0x08 && 0x08u8 & 0xFC == 0x08
                    && 0x08u8 & 0xFC != 0x00
            }) by (bit_vector);
        },
        OpCode::Sleep(k2) => {
            let v = k2.spec_value();
            assert({
                let lo = 0x0Cu8 | (v & 0b11);
                let w = spec_word_from_bytes(0, lo);
                (w >> 8) as u8 == 0 && (w & 0xFF) as u8 == lo && lo & 0xFC == 0x0C
                    && lo & 0xFC != 0x00 && lo & 0xFC != 0x08 && lo & 0b11 == v
            }) by (bit_vector)
                requires
                    v < 4,
            ;
            lemma_u2_from_wide_value(0x0Cu8 | (v & 0b11));
            lemma_u2_value_injective(U2::spec_from_wide(0x0Cu8 | (v & 0b11)), k2);
        },
        OpCode::WaitB(b) => {
            let v = b.0.spec_value();
            assert({
                let lo = 0x10u8 | v;
                let w = spec_word_from_bytes(0, lo);
                (w >> 8) as u8 == 0 && (w & 0xFF) as u8 == lo && lo & 0xF8 == 0x10
                    && lo & 0xFC != 0x00 && lo & 0xFC != 0x08 && lo & 0xFC != 0x0C
                    && lo & 0xFC != 0x20 && lo & 0xFC != 0x24 && lo & 0xFC != 0x28
                    && lo & 0xFC != 0x2C && lo & 0xFC != 0x30 && lo & 0xFC != 0x34
                    && lo & 0xFC != 0x38 && lo & 0b111 == v
            }) by (bit_vector)
                requires
                    v < 8,
            ;
            lemma_u3_from_wide_value(0x10u8 | v);
            lemma_u3_value_injective(U3::spec_from_wide(0x10u8 | v), b.0);
        },
        OpCode::PushA => {
            assert({
                let w = spec_word_from_bytes(0, 0x20);
                (w >> 8) as u8 == 0 && (w & 0xFF) as u8 == 0x20 && 0x20u8 & 0xFC == 0x20
                    && 0x20u8 & 0xFC != 0x00 && 0x20u8 & 0xFC != 0x08 && 0x20u8 & 0xFC != 0x0C
            }) by (bit_vector);
        },
        OpCode::PopA => {
            assert({
                let w = spec_word_from_bytes(0, 0x24);
                (w >> 8) as u8 == 0 && (w & 0xFF) as u8 == 0x24 && 0x24u8 & 0xFC == 0x24
                    && 0x24u8 & 0xFC != 0x00 && 0x24u8 & 0xFC != 0x08 && 0x24u8 & 0xFC != 0x0C
                    && 0x24u8 & 0xFC != 0x20
            }) by (bit_vector);
        },
        _ => {},
    }
}

/// The diagnostic line for a word that matched no decode rule: the word in
/// hexadecimal and in binary.
pub open spec fn spec_decode_error_message(word: u16) -> Seq<char> {
    "unknown opcode: 0x"@ + crate::text::hex4_str(word) + " 0b"@ + crate::text::bin_str(
        word as int,
        16,
    )
}

impl DecodeError {
    /// A diagnostic line reporting the offending word in hexadecimal and
    /// binary, so an undecodable word fails loudly rather than silently.
    pub fn message(&self) -> (r: String)
        ensures
            r@ == spec_decode_error_message(self.word),
    {
        let mut s = String::new();
        s.append("unknown opcode: 0x");
        s.append(crate::text::u16_hex4(self.word).as_str());
        s.append(" 0b");
        s.append(crate::text::u16_bin16(self.word).as_str());
        proof {
            assert(s@ =~= spec_decode_error_message(self.word));
        }
        s
    }
}

/// Every instruction the decoder yields is well-formed: each extracted
/// bit-field operand lies within its declared width.
pub proof fn lemma_decode_wf(word: u16)
    ensures
        spec_decode(word) matches Ok(op) ==> spec_wf(op),
{
    assert forall|v: u8| (#[trigger] U2::spec_from_wide(v)).inv() by {
        lemma_u2_from_wide_value(v);
        assert(v & 0b11 < 4) by (bit_vector);
    }
    assert forall|v: u8| (#[trigger] U3::spec_from_wide(v)).inv() by {
        lemma_u3_from_wide_value(v);
        assert(v & 0b111 < 8) by (bit_vector);
    }
    assert forall|v: u8| (#[trigger] U7::spec_from_wide(v)).inv() by {
        lemma_u7_from_wide_value(v);
        assert(v & 0x7F < 128) by (bit_vector);
    }
    assert forall|v: u16| (#[trigger] U9::spec_from_wide(v)).inv() by {
        lemma_u9_from_wide_value(v);
        assert(v & 0x1FF < 512) by (bit_vector);
    }
    assert forall|v: u16| (#[trigger] U10::spec_from_wide(v)).inv() by {
        lemma_u10_from_wide_value(v);
        assert(v & 0x3FF < 1024) by (bit_vector);
    }
    assert forall|v: u16| (#[trigger] U12::spec_from_wide(v)).inv() by {
        lemma_u12_from_wide_value(v);
        assert(v & 0xFFF < 4096) by (bit_vector);
    }
}

} // verus!
