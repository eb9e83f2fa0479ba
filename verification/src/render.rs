//! The disassembly renderer: one assembly-text line per instruction, with a
//! semantic comment restating the instruction's data-flow effect using the
//! same rendered operand text as the mnemonic line, so the two cannot drift
//! apart. The comment is documentation only and has no bearing on the
//! decode/encode round trip.

use vstd::prelude::*;

use crate::opcode::{OpCode, UnsupportedError};
use crate::text::{dec_str, u16_dec, u8_dec};
use crate::types::{
    spec_bit_in_c_name, spec_bit_in_name, spec_bit_out_name, spec_label_str, spec_reg8_str,
    spec_wait_bit_name,
};

verus! {

/// The assembly-text rendering of `op`: mnemonic, operands, and a
/// tab-separated comment restating the instruction's data-flow effect over
/// the same rendered operand text. Empty only for the `Unknown` catch-all,
/// which has no rendering.
pub open spec fn spec_asm(op: OpCode) -> Seq<char> {
    match op {
        OpCode::Nop => "NOP"@,
        OpCode::ClearWatchDog => "CLRWDT"@,
        OpCode::Sleep(k2) => "SLEEPX "@ + dec_str(k2.spec_value() as int),
        OpCode::WaitB(b) => "WAITB "@ + spec_wait_bit_name(b.0.spec_value()),
        OpCode::PushA => "PUSHA"@,
        OpCode::PopA => "POPA"@,
        OpCode::ReadCode(k2) => "RCODE "@ + dec_str(k2.spec_value() as int),
        OpCode::Return => "RET"@,
        OpCode::ReturnOk => "RETZ"@,
        OpCode::ReturnInt => "RETIE"@,
        OpCode::ReturnImm(k) => "RETL "@ + dec_str(k as int),
        OpCode::ReturnErrImm(k) => "RETLN "@ + dec_str(k as int),
        OpCode::ClearA => "CLRA"@,
        OpCode::Clear(f) => "CLR "@ + spec_reg8_str(f.0) + "\t; 0x00->"@ + spec_reg8_str(f.0) + ", 1->Z"@,
        OpCode::MoveA(f) => "MOVA "@ + spec_reg8_str(f.0.spec_value() as u8) + "\t; A->"@ + spec_reg8_str(f.0.spec_value() as u8),
        OpCode::Move(f, d) => "MOV "@ + spec_reg8_str(f.0.spec_value() as u8) + ", "@ + d.spec_name() + "\t; "@ + spec_reg8_str(f.0.spec_value() as u8) + "->"@ + d.spec_name(),
        OpCode::Inc(f, d) => "INC "@ + spec_reg8_str(f.0) + ", "@ + d.spec_name() + "\t; "@ + spec_reg8_str(f.0) + "+1->"@ + d.spec_name(),
        OpCode::Dec(f, d) => "DEC "@ + spec_reg8_str(f.0) + ", "@ + d.spec_name() + "\t; "@ + spec_reg8_str(f.0) + "-1->"@ + d.spec_name(),
        OpCode::IncAndSkipIfZero(f, d) => "INCSZ "@ + spec_reg8_str(f.0) + ", "@ + d.spec_name() + "\t; "@ + spec_reg8_str(f.0) + "+1->"@ + d.spec_name() + ", skip if Z"@,
        OpCode::DecAndSkipIfZero(f, d) => "DECSZ "@ + spec_reg8_str(f.0) + ", "@ + d.spec_name() + "\t; "@ + spec_reg8_str(f.0) + "-1->"@ + d.spec_name() + ", skip if Z"@,
        OpCode::SwapHalfBytes(f, d) => "SWAP "@ + spec_reg8_str(f.0) + ", "@ + d.spec_name() + "\t; "@ + spec_reg8_str(f.0) + "[3:0]<=>"@ + spec_reg8_str(f.0) + "[7:4] -> "@ + d.spec_name(),
        OpCode::And(f, d) => "AND "@ + spec_reg8_str(f.0) + ", "@ + d.spec_name() + "\t; "@ + spec_reg8_str(f.0) + "&A->"@ + d.spec_name(),
        OpCode::Or(f, d) => "IOR "@ + spec_reg8_str(f.0) + ", "@ + d.spec_name() + "\t; "@ + spec_reg8_str(f.0) + "|A->"@ + d.spec_name(),
        OpCode::Xor(f, d) => "XOR "@ + spec_reg8_str(f.0) + ", "@ + d.spec_name() + "\t; "@ + spec_reg8_str(f.0) + "^A->"@ + d.spec_name(),
        OpCode::Add(f, d) => "ADD "@ + spec_reg8_str(f.0) + ", "@ + d.spec_name() + "\t; "@ + spec_reg8_str(f.0) + "+A->"@ + d.spec_name(),
        OpCode::Sub(f, d) => "SUB "@ + spec_reg8_str(f.0) + ", "@ + d.spec_name() + "\t; "@ + spec_reg8_str(f.0) + "-A->"@ + d.spec_name(),
        OpCode::RotateLeftWithCarry(f, d) => "RCL "@ + spec_reg8_str(f.0) + ", "@ + d.spec_name() + "\t; {"@ + spec_reg8_str(f.0) + ",C}<<1->"@ + d.spec_name() + ","@ + spec_reg8_str(f.0) + "[7]->C"@,
        OpCode::RotateRightWithCarry(f, d) => "RCR "@ + spec_reg8_str(f.0) + ", "@ + d.spec_name(),
        OpCode::MoveImmToIndirAddr1(j) => "MOVIP "@ + dec_str(j.spec_value() as int) + "\t; "@ + dec_str(j.spec_value() as int) + "->SFR_INDIR_ADDR"@,
        OpCode::MoveImmToIndirAddr2(k) => "MOVIA "@ + dec_str(k.spec_value() as int) + "\t; "@ + dec_str(k.spec_value() as int) + "->SFR_INDIR_ADDR2"@,
        OpCode::MoveImmToPortDir(k) => "MOVA1F "@ + dec_str(k as int) + "\t; "@ + dec_str(k as int) + "->SFR_PORT_DIR"@,
        OpCode::MoveImmToPortIo(k) => "MOVA2F "@ + dec_str(k as int) + "\t; "@ + dec_str(k as int) + "->SFR_PORT_IO"@,
        OpCode::MoveImmToP2(k) => "MOVA2P "@ + dec_str(k as int) + "\t; "@ + dec_str(k as int) + "->@SFR_INDIR_ADDR2"@,
        OpCode::MoveImmToP1(k) => "MOVA1P "@ + dec_str(k as int) + "\t; "@ + dec_str(k as int) + "->@SFR_INDIR_ADDR"@,
        OpCode::MoveImm(k) => "MOVL "@ + dec_str(k as int) + "\t; "@ + dec_str(k as int) + "->A"@,
        OpCode::AndImm(k) => "ANDL "@ + dec_str(k as int) + "\t; "@ + dec_str(k as int) + "&A->A"@,
        OpCode::OrImm(k) => "IORL "@ + dec_str(k as int) + "\t; "@ + dec_str(k as int) + "|A->A"@,
        OpCode::XorImm(k) => "XORL "@ + dec_str(k as int) + "\t; "@ + dec_str(k as int) + "^A->A"@,
        OpCode::AddImm(k) => "ADDL "@ + dec_str(k as int) + "\t; "@ + dec_str(k as int) + "+A->A"@,
        OpCode::SubImm(k) => "SUBL "@ + dec_str(k as int) + "\t; A-"@ + dec_str(k as int) + "->A"@,
        OpCode::CompareImmNegate(k) => "CMPLN "@ + dec_str(k as int) + "\t; "@ + dec_str(k as int) + "+A -> Z,C"@,
        OpCode::CompareImm(k) => "CMPL "@ + dec_str(k as int) + "\t; "@ + dec_str(k as int) + "-A -> Z,C"@,
        OpCode::BitClear(f, b) => "BC "@ + spec_reg8_str(f.0) + ", "@ + dec_str(b.spec_value() as int) + "\t; 0->"@ + spec_reg8_str(f.0) + "["@ + dec_str(b.spec_value() as int) + "]"@,
        OpCode::BitSet(f, b) => "BS "@ + spec_reg8_str(f.0) + ", "@ + dec_str(b.spec_value() as int) + "\t; 1->"@ + spec_reg8_str(f.0) + "["@ + dec_str(b.spec_value() as int) + "]"@,
        OpCode::BitTestSkipIfClear(f, b) => "BTSC "@ + spec_reg8_str(f.0) + ", "@ + dec_str(b.spec_value() as int) + "\t; skip if "@ + spec_reg8_str(f.0) + "["@ + dec_str(b.spec_value() as int) + "]==0"@,
        OpCode::BitTestSkipIfSet(f, b) => "BTSS "@ + spec_reg8_str(f.0) + ", "@ + dec_str(b.spec_value() as int) + "\t; skip if "@ + spec_reg8_str(f.0) + "["@ + dec_str(b.spec_value() as int) + "]==1"@,
        OpCode::BitToC(a) => "BCTC "@ + spec_bit_in_c_name(a.0.spec_value()) + "\t; "@ + spec_bit_in_c_name(a.0.spec_value()) + "->C"@,
        OpCode::BitOut1(a, b) => "BP1F "@ + spec_bit_out_name(a.0.spec_value()) + ", "@ + dec_str(b.spec_value() as int) + "\t; SFR_INDIR_ADDR["@ + dec_str(b.spec_value() as int) + "]-> "@ + spec_bit_out_name(a.0.spec_value()),
        OpCode::BitOut2(a, b) => "BP2F "@ + spec_bit_out_name(a.0.spec_value()) + ", "@ + dec_str(b.spec_value() as int) + "\t; SFR_DATA_EXCH["@ + dec_str(b.spec_value() as int) + "]->"@ + spec_bit_out_name(a.0.spec_value()),
        OpCode::BitIn1(a, b) => "BG1F "@ + spec_bit_in_name(a.0.spec_value()) + ", "@ + dec_str(b.spec_value() as int) + "\t; "@ + spec_bit_in_name(a.0.spec_value()) + "->SFR_INDIR_ADDR["@ + dec_str(b.spec_value() as int) + "]"@,
        OpCode::BitIn2(a, b) => "BG2F "@ + spec_bit_in_name(a.0.spec_value()) + ", "@ + dec_str(b.spec_value() as int) + "\t; "@ + spec_bit_in_name(a.0.spec_value()) + "->SFR_DATA_EXCH["@ + dec_str(b.spec_value() as int) + "]"@,
        OpCode::Jump(k12) => "JMP "@ + spec_label_str(k12.0.spec_value() as int),
        OpCode::Call(k12) => "CALL "@ + spec_label_str(k12.0.spec_value() as int),
        OpCode::JumpIfNotZero(k) => "JNZ "@ + spec_label_str(k.0.spec_value() as int),
        OpCode::JumpIfZero(k) => "JZ "@ + spec_label_str(k.0.spec_value() as int),
        OpCode::JumpIfNotCarry(k) => "JNC "@ + spec_label_str(k.0.spec_value() as int),
        OpCode::JumpIfCarry(k10) => "JC "@ + spec_label_str(k10.0.spec_value() as int),
        OpCode::JumpIfEqual(k7, label) => "CMPZ "@ + dec_str(k7.spec_value() as int) + ", "@ + spec_label_str(label.0 as int) + "\t; "@ + spec_label_str(label.0 as int) + "->PC[7:0] if A=="@ + dec_str(k7.spec_value() as int),
        OpCode::PushIndirAddr2 => "PUSHA2"@,
        OpCode::PopIndirAddr2 => "POPA2"@,
        OpCode::Unknown(_) => Seq::empty(),
    }
}

impl OpCode {
    /// Renders this instruction as one assembly line with a trailing
    /// data-flow comment. Every variant has a rendering except the
    /// `Unknown` catch-all, which signals instead of crashing.
    #[verifier::spinoff_prover]
    #[verifier::rlimit(60)]
    pub fn to_wch_risc8b_asm(&self) -> (r: Result<String, UnsupportedError>)
        ensures
            r is Ok <==> !(*self is Unknown),
            r is Ok ==> r->Ok_0@ == spec_asm(*self),
    {
        match self {
            OpCode::Nop => {
                let mut s = String::new();
                s.append("NOP");
                proof {
                    assert(s@ =~= spec_asm(*self));
                }
                Ok(s)
            }
            OpCode::ClearWatchDog => {
                let mut s = String::new();
                s.append("CLRWDT");
                proof {
                    assert(s@ =~= spec_asm(*self));
                }
                Ok(s)
            }
            OpCode::Sleep(k2) => {
                let mut s = String::new();
                s.append("SLEEPX ");
                s.append(u8_dec(k2.value()).as_str());
                proof {
                    assert(s@ =~= spec_asm(*self));
                }
                Ok(s)
            }
            OpCode::WaitB(b) => {
                let mut s = String::new();
                s.append("WAITB ");
                s.append(b.name());
                proof {
                    assert(s@ =~= spec_asm(*self));
                }
                Ok(s)
            }
            OpCode::PushA => {
                let mut s = String::new();
                s.append("PUSHA");
                proof {
                    assert(s@ =~= spec_asm(*self));
                }
                Ok(s)
            }
            OpCode::PopA => {
                let mut s = String::new();
                s.append("POPA");
                proof {
                    assert(s@ =~= spec_asm(*self));
                }
                Ok(s)
            }
            OpCode::ReadCode(k2) => {
                let mut s = String::new();
                s.append("RCODE ");
                s.append(u8_dec(k2.value()).as_str());
                proof {
                    assert(s@ =~= spec_asm(*self));
                }
                Ok(s)
            }
            OpCode::Return => {
                let mut s = String::new();
                s.append("RET");
                proof {
                    assert(s@ =~= spec_asm(*self));
                }
                Ok(s)
            }
            OpCode::ReturnOk => {
                let mut s = String::new();
                s.append("RETZ");
                proof {
                    assert(s@ =~= spec_asm(*self));
                }
                Ok(s)
            }
            OpCode::ReturnInt => {
                let mut s = String::new();
                s.append("RETIE");
                proof {
                    assert(s@ =~= spec_asm(*self));
                }
                Ok(s)
            }
            OpCode::ReturnImm(k) => {
                let mut s = String::new();
                s.append("RETL ");
                s.append(u8_dec(*k).as_str());
                proof {
                    assert(s@ =~= spec_asm(*self));
                }
                Ok(s)
            }
            OpCode::ReturnErrImm(k) => {
                let mut s = String::new();
                s.append("RETLN ");
                s.append(u8_dec(*k).as_str());
                proof {
                    assert(s@ =~= spec_asm(*self));
                }
                Ok(s)
            }
            OpCode::ClearA => {
                let mut s = String::new();
                s.append("CLRA");
                proof {
                    assert(s@ =~= spec_asm(*self));
                }
                Ok(s)
            }
            OpCode::Clear(f) => {
                let mut s = String::new();
                s.append("CLR ");
                s.append(f.render().as_str());
                s.append("\t; 0x00->");
                s.append(f.render().as_str());
                s.append(", 1->Z");
                proof {
                    assert(s@ =~= spec_asm(*self));
                }
                Ok(s)
            }
            OpCode::MoveA(f) => {
                let mut s = String::new();
                s.append("MOVA ");
                s.append(f.render().as_str());
                s.append("\t; A->");
                s.append(f.render().as_str());
                proof {
                    assert(s@ =~= spec_asm(*self));
                }
                Ok(s)
            }
            OpCode::Move(f, d) => {
                let mut s = String::new();
                s.append("MOV ");
                s.append(f.render().as_str());
                s.append(", ");
                s.append(d.name());
                s.append("\t; ");
                s.append(f.render().as_str());
                s.append("->");
                s.append(d.name());
                proof {
                    assert(s@ =~= spec_asm(*self));
                }
                Ok(s)
            }
            OpCode::Inc(f, d) => {
                let mut s = String::new();
                s.append("INC ");
                s.append(f.render().as_str());
                s.append(", ");
                s.append(d.name());
                s.append("\t; ");
                s.append(f.render().as_str());
                s.append("+1->");
                s.append(d.name());
                proof {
                    assert(s@ =~= spec_asm(*self));
                }
                Ok(s)
            }
            OpCode::Dec(f, d) => {
                let mut s = String::new();
                s.append("DEC ");
                s.append(f.render().as_str());
                s.append(", ");
                s.append(d.name());
                s.append("\t; ");
                s.append(f.render().as_str());
                s.append("-1->");
                s.append(d.name());
                proof {
                    assert(s@ =~= spec_asm(*self));
                }
                Ok(s)
            }
            OpCode::IncAndSkipIfZero(f, d) => {
                let mut s = String::new();
                s.append("INCSZ ");
                s.append(f.render().as_str());
                s.append(", ");
                s.append(d.name());
                s.append("\t; ");
                s.append(f.render().as_str());
                s.append("+1->");
                s.append(d.name());
                s.append(", skip if Z");
                proof {
                    assert(s@ =~= spec_asm(*self));
                }
                Ok(s)
            }
            OpCode::DecAndSkipIfZero(f, d) => {
                let mut s = String::new();
                s.append("DECSZ ");
                s.append(f.render().as_str());
                s.append(", ");
                s.append(d.name());
                s.append("\t; ");
                s.append(f.render().as_str());
                s.append("-1->");
                s.append(d.name());
                s.append(", skip if Z");
                proof {
                    assert(s@ =~= spec_asm(*self));
                }
                Ok(s)
            }
            OpCode::SwapHalfBytes(f, d) => {
                let mut s = String::new();
                s.append("SWAP ");
                s.append(f.render().as_str());
                s.append(", ");
                s.append(d.name());
                s.append("\t; ");
                s.append(f.render().as_str());
                s.append("[3:0]<=>");
                s.append(f.render().as_str());
                s.append("[7:4] -> ");
                s.append(d.name());
                proof {
                    assert(s@ =~= spec_asm(*self));
                }
                Ok(s)
            }
            OpCode::And(f, d) => {
                let mut s = String::new();
                s.append("AND ");
                s.append(f.render().as_str());
                s.append(", ");
                s.append(d.name());
                s.append("\t; ");
                s.append(f.render().as_str());
                s.append("&A->");
                s.append(d.name());
                proof {
                    assert(s@ =~= spec_asm(*self));
                }
                Ok(s)
            }
            OpCode::Or(f, d) => {
                let mut s = String::new();
                s.append("IOR ");
                s.append(f.render().as_str());
                s.append(", ");
                s.append(d.name());
                s.append("\t; ");
                s.append(f.render().as_str());
                s.append("|A->");
                s.append(d.name());
                proof {
                    assert(s@ =~= spec_asm(*self));
                }
                Ok(s)
            }
            OpCode::Xor(f, d) => {
                let mut s = String::new();
                s.append("XOR ");
                s.append(f.render().as_str());
                s.append(", ");
                s.append(d.name());
                s.append("\t; ");
                s.append(f.render().as_str());
                s.append("^A->");
                s.append(d.name());
                proof {
                    assert(s@ =~= spec_asm(*self));
                }
                Ok(s)
            }
            OpCode::Add(f, d) => {
                let mut s = String::new();
                s.append("ADD ");
                s.append(f.render().as_str());
                s.append(", ");
                s.append(d.name());
                s.append("\t; ");
                s.append(f.render().as_str());
                s.append("+A->");
                s.append(d.name());
                proof {
                    assert(s@ =~= spec_asm(*self));
                }
                Ok(s)
            }
            OpCode::Sub(f, d) => {
                let mut s = String::new();
                s.append("SUB ");
                s.append(f.render().as_str());
                s.append(", ");
                s.append(d.name());
                s.append("\t; ");
                s.append(f.render().as_str());
                s.append("-A->");
                s.append(d.name());
                proof {
                    assert(s@ =~= spec_asm(*self));
                }
                Ok(s)
            }
            OpCode::RotateLeftWithCarry(f, d) => {
                let mut s = String::new();
                s.append("RCL ");
                s.append(f.render().as_str());
                s.append(", ");
                s.append(d.name());
                s.append("\t; {");
                s.append(f.render().as_str());
                s.append(",C}<<1->");
                s.append(d.name());
                s.append(",");
                s.append(f.render().as_str());
                s.append("[7]->C");
                proof {
                    assert(s@ =~= spec_asm(*self));
                }
                Ok(s)
            }
            OpCode::RotateRightWithCarry(f, d) => {
                let mut s = String::new();
                s.append("RCR ");
                s.append(f.render().as_str());
                s.append(", ");
                s.append(d.name());
                proof {
                    assert(s@ =~= spec_asm(*self));
                }
                Ok(s)
            }
            OpCode::MoveImmToIndirAddr1(j) => {
                let mut s = String::new();
                s.append("MOVIP ");
                s.append(u16_dec(j.value()).as_str());
                s.append("\t; ");
                s.append(u16_dec(j.value()).as_str());
                s.append("->SFR_INDIR_ADDR");
                proof {
                    assert(s@ =~= spec_asm(*self));
                }
                Ok(s)
            }
            OpCode::MoveImmToIndirAddr2(k) => {
                let mut s = String::new();
                s.append("MOVIA ");
                s.append(u16_dec(k.value()).as_str());
                s.append("\t; ");
                s.append(u16_dec(k.value()).as_str());
                s.append("->SFR_INDIR_ADDR2");
                proof {
                    assert(s@ =~= spec_asm(*self));
                }
                Ok(s)
            }
            OpCode::MoveImmToPortDir(k) => {
                let mut s = String::new();
                s.append("MOVA1F ");
                s.append(u8_dec(*k).as_str());
                s.append("\t; ");
                s.append(u8_dec(*k).as_str());
                s.append("->SFR_PORT_DIR");
                proof {
                    assert(s@ =~= spec_asm(*self));
                }
                Ok(s)
            }
            OpCode::MoveImmToPortIo(k) => {
                let mut s = String::new();
                s.append("MOVA2F ");
                s.append(u8_dec(*k).as_str());
                s.append("\t; ");
                s.append(u8_dec(*k).as_str());
                s.append("->SFR_PORT_IO");
                proof {
                    assert(s@ =~= spec_asm(*self));
                }
                Ok(s)
            }
            OpCode::MoveImmToP2(k) => {
                let mut s = String::new();
                s.append("MOVA2P ");
                s.append(u8_dec(*k).as_str());
                s.append("\t; ");
                s.append(u8_dec(*k).as_str());
                s.append("->@SFR_INDIR_ADDR2");
                proof {
                    assert(s@ =~= spec_asm(*self));
                }
                Ok(s)
            }
            OpCode::MoveImmToP1(k) => {
                let mut s = String::new();
                s.append("MOVA1P ");
                s.append(u8_dec(*k).as_str());
                s.append("\t; ");
                s.append(u8_dec(*k).as_str());
                s.append("->@SFR_INDIR_ADDR");
                proof {
                    assert(s@ =~= spec_asm(*self));
                }
                Ok(s)
            }
            OpCode::MoveImm(k) => {
                let mut s = String::new();
                s.append("MOVL ");
                s.append(u8_dec(*k).as_str());
                s.append("\t; ");
                s.append(u8_dec(*k).as_str());
                s.append("->A");
                proof {
                    assert(s@ =~= spec_asm(*self));
                }
                Ok(s)
            }
            OpCode::AndImm(k) => {
                let mut s = String::new();
                s.append("ANDL ");
                s.append(u8_dec(*k).as_str());
                s.append("\t; ");
                s.append(u8_dec(*k).as_str());
                s.append("&A->A");
                proof {
                    assert(s@ =~= spec_asm(*self));
                }
                Ok(s)
            }
            OpCode::OrImm(k) => {
                let mut s = String::new();
                s.append("IORL ");
                s.append(u8_dec(*k).as_str());
                s.append("\t; ");
                s.append(u8_dec(*k).as_str());
                s.append("|A->A");
                proof {
                    assert(s@ =~= spec_asm(*self));
                }
                Ok(s)
            }
            OpCode::XorImm(k) => {
                let mut s = String::new();
                s.append("XORL ");
                s.append(u8_dec(*k).as_str());
                s.append("\t; ");
                s.append(u8_dec(*k).as_str());
                s.append("^A->A");
                proof {
                    assert(s@ =~= spec_asm(*self));
                }
                Ok(s)
            }
            OpCode::AddImm(k) => {
                let mut s = String::new();
                s.append("ADDL ");
                s.append(u8_dec(*k).as_str());
                s.append("\t; ");
                s.append(u8_dec(*k).as_str());
                s.append("+A->A");
                proof {
                    assert(s@ =~= spec_asm(*self));
                }
                Ok(s)
            }
            OpCode::SubImm(k) => {
                let mut s = String::new();
                s.append("SUBL ");
                s.append(u8_dec(*k).as_str());
                s.append("\t; A-");
                s.append(u8_dec(*k).as_str());
                s.append("->A");
                proof {
                    assert(s@ =~= spec_asm(*self));
                }
                Ok(s)
            }
            OpCode::CompareImmNegate(k) => {
                let mut s = String::new();
                s.append("CMPLN ");
                s.append(u8_dec(*k).as_str());
                s.append("\t; ");
                s.append(u8_dec(*k).as_str());
                s.append("+A -> Z,C");
                proof {
                    assert(s@ =~= spec_asm(*self));
                }
                Ok(s)
            }
            OpCode::CompareImm(k) => {
                let mut s = String::new();
                s.append("CMPL ");
                s.append(u8_dec(*k).as_str());
                s.append("\t; ");
                s.append(u8_dec(*k).as_str());
                s.append("-A -> Z,C");
                proof {
                    assert(s@ =~= spec_asm(*self));
                }
                Ok(s)
            }
            OpCode::BitClear(f, b) => {
                let mut s = String::new();
                s.append("BC ");
                s.append(f.render().as_str());
                s.append(", ");
                s.append(u8_dec(b.value()).as_str());
                s.append("\t; 0->");
                s.append(f.render().as_str());
                s.append("[");
                s.append(u8_dec(b.value()).as_str());
                s.append("]");
                proof {
                    assert(s@ =~= spec_asm(*self));
                }
                Ok(s)
            }
            OpCode::BitSet(f, b) => {
                let mut s = String::new();
                s.append("BS ");
                s.append(f.render().as_str());
                s.append(", ");
                s.append(u8_dec(b.value()).as_str());
                s.append("\t; 1->");
                s.append(f.render().as_str());
                s.append("[");
                s.append(u8_dec(b.value()).as_str());
                s.append("]");
                proof {
                    assert(s@ =~= spec_asm(*self));
                }
                Ok(s)
            }
            OpCode::BitTestSkipIfClear(f, b) => {
                let mut s = String::new();
                s.append("BTSC ");
                s.append(f.render().as_str());
                s.append(", ");
                s.append(u8_dec(b.value()).as_str());
                s.append("\t; skip if ");
                s.append(f.render().as_str());
                s.append("[");
                s.append(u8_dec(b.value()).as_str());
                s.append("]==0");
                proof {
                    assert(s@ =~= spec_asm(*self));
                }
                Ok(s)
            }
            OpCode::BitTestSkipIfSet(f, b) => {
                let mut s = String::new();
                s.append("BTSS ");
                s.append(f.render().as_str());
                s.append(", ");
                s.append(u8_dec(b.value()).as_str());
                s.append("\t; skip if ");
                s.append(f.render().as_str());
                s.append("[");
                s.append(u8_dec(b.value()).as_str());
                s.append("]==1");
                proof {
                    assert(s@ =~= spec_asm(*self));
                }
                Ok(s)
            }
            OpCode::BitToC(a) => {
                let mut s = String::new();
                s.append("BCTC ");
                s.append(a.name());
                s.append("\t; ");
                s.append(a.name());
                s.append("->C");
                proof {
                    assert(s@ =~= spec_asm(*self));
                }
                Ok(s)
            }
            OpCode::BitOut1(a, b) => {
                let mut s = String::new();
                s.append("BP1F ");
                s.append(a.name());
                s.append(", ");
                s.append(u8_dec(b.value()).as_str());
                s.append("\t; SFR_INDIR_ADDR[");
                s.append(u8_dec(b.value()).as_str());
                s.append("]-> ");
                s.append(a.name());
                proof {
                    assert(s@ =~= spec_asm(*self));
                }
                Ok(s)
            }
            OpCode::BitOut2(a, b) => {
                let mut s = String::new();
                s.append("BP2F ");
                s.append(a.name());
                s.append(", ");
                s.append(u8_dec(b.value()).as_str());
                s.append("\t; SFR_DATA_EXCH[");
                s.append(u8_dec(b.value()).as_str());
                s.append("]->");
                s.append(a.name());
                proof {
                    assert(s@ =~= spec_asm(*self));
                }
                Ok(s)
            }
            OpCode::BitIn1(a, b) => {
                let mut s = String::new();
                s.append("BG1F ");
                s.append(a.name());
                s.append(", ");
                s.append(u8_dec(b.value()).as_str());
                s.append("\t; ");
                s.append(a.name());
                s.append("->SFR_INDIR_ADDR[");
                s.append(u8_dec(b.value()).as_str());
                s.append("]");
                proof {
                    assert(s@ =~= spec_asm(*self));
                }
                Ok(s)
            }
            OpCode::BitIn2(a, b) => {
                let mut s = String::new();
                s.append("BG2F ");
                s.append(a.name());
                s.append(", ");
                s.append(u8_dec(b.value()).as_str());
                s.append("\t; ");
                s.append(a.name());
                s.append("->SFR_DATA_EXCH[");
                s.append(u8_dec(b.value()).as_str());
                s.append("]");
                proof {
                    assert(s@ =~= spec_asm(*self));
                }
                Ok(s)
            }
            OpCode::Jump(k12) => {
                let mut s = String::new();
                s.append("JMP ");
                s.append(k12.render().as_str());
                proof {
                    assert(s@ =~= spec_asm(*self));
                }
                Ok(s)
            }
            OpCode::Call(k12) => {
                let mut s = String::new();
                s.append("CALL ");
                s.append(k12.render().as_str());
                proof {
                    assert(s@ =~= spec_asm(*self));
                }
                Ok(s)
            }
            OpCode::JumpIfNotZero(k) => {
                let mut s = String::new();
                s.append("JNZ ");
                s.append(k.render().as_str());
                proof {
                    assert(s@ =~= spec_asm(*self));
                }
                Ok(s)
            }
            OpCode::JumpIfZero(k) => {
                let mut s = String::new();
                s.append("JZ ");
                s.append(k.render().as_str());
                proof {
                    assert(s@ =~= spec_asm(*self));
                }
                Ok(s)
            }
            OpCode::JumpIfNotCarry(k) => {
                let mut s = String::new();
                s.append("JNC ");
                s.append(k.render().as_str());
                proof {
                    assert(s@ =~= spec_asm(*self));
                }
                Ok(s)
            }
            OpCode::JumpIfCarry(k10) => {
                let mut s = String::new();
                s.append("JC ");
                s.append(k10.render().as_str());
                proof {
                    assert(s@ =~= spec_asm(*self));
                }
                Ok(s)
            }
            OpCode::JumpIfEqual(k7, label) => {
                let mut s = String::new();
                s.append("CMPZ ");
                s.append(u8_dec(k7.value()).as_str());
                s.append(", ");
                s.append(label.render().as_str());
                s.append("\t; ");
                s.append(label.render().as_str());
                s.append("->PC[7:0] if A==");
                s.append(u8_dec(k7.value()).as_str());
                proof {
                    assert(s@ =~= spec_asm(*self));
                }
                Ok(s)
            }
            OpCode::PushIndirAddr2 => {
                let mut s = String::new();
                s.append("PUSHA2");
                proof {
                    assert(s@ =~= spec_asm(*self));
                }
                Ok(s)
            }
            OpCode::PopIndirAddr2 => {
                let mut s = String::new();
                s.append("POPA2");
                proof {
                    assert(s@ =~= spec_asm(*self));
                }
                Ok(s)
            }
            OpCode::Unknown(_) => Err(UnsupportedError {}),
        }
    }
}
/// Every instruction except the `Unknown` catch-all renders as a non-empty
/// line: the rendering always starts with a mnemonic.
pub proof fn lemma_render_nonempty(op: OpCode)
    requires
        !(op is Unknown),
    ensures
        spec_asm(op).len() > 0,
{
    match op {
        OpCode::Nop => {
            reveal_strlit("NOP");
        },
        OpCode::ClearWatchDog => {
            reveal_strlit("CLRWDT");
        },
        OpCode::Sleep(_) => {
            reveal_strlit("SLEEPX ");
        },
        OpCode::WaitB(_) => {
            reveal_strlit("WAITB ");
        },
        OpCode::PushA => {
            reveal_strlit("PUSHA");
        },
        OpCode::PopA => {
            reveal_strlit("POPA");
        },
        OpCode::ReadCode(_) => {
            reveal_strlit("RCODE ");
        },
        OpCode::Return => {
            reveal_strlit("RET");
        },
        OpCode::ReturnOk => {
            reveal_strlit("RETZ");
        },
        OpCode::ReturnInt => {
            reveal_strlit("RETIE");
        },
        OpCode::ReturnImm(_) => {
            reveal_strlit("RETL ");
        },
        OpCode::ReturnErrImm(_) => {
            reveal_strlit("RETLN ");
        },
        OpCode::ClearA => {
            reveal_strlit("CLRA");
        },
        OpCode::Clear(_) => {
            reveal_strlit("CLR ");
        },
        OpCode::MoveA(_) => {
            reveal_strlit("MOVA ");
        },
        OpCode::Move(_, _) => {
            reveal_strlit("MOV ");
        },
        OpCode::Inc(_, _) => {
            reveal_strlit("INC ");
        },
        OpCode::Dec(_, _) => {
            reveal_strlit("DEC ");
        },
        OpCode::IncAndSkipIfZero(_, _) => {
            reveal_strlit("INCSZ ");
        },
        OpCode::DecAndSkipIfZero(_, _) => {
            reveal_strlit("DECSZ ");
        },
        OpCode::SwapHalfBytes(_, _) => {
            reveal_strlit("SWAP ");
        },
        OpCode::And(_, _) => {
            reveal_strlit("AND ");
        },
        OpCode::Or(_, _) => {
            reveal_strlit("IOR ");
        },
        OpCode::Xor(_, _) => {
            reveal_strlit("XOR ");
        },
        OpCode::Add(_, _) => {
            reveal_strlit("ADD ");
        },
        OpCode::Sub(_, _) => {
            reveal_strlit("SUB ");
        },
        OpCode::RotateLeftWithCarry(_, _) => {
            reveal_strlit("RCL ");
        },
        OpCode::RotateRightWithCarry(_, _) => {
            reveal_strlit("RCR ");
        },
        OpCode::MoveImmToIndirAddr1(_) => {
            reveal_strlit("MOVIP ");
        },
        OpCode::MoveImmToIndirAddr2(_) => {
            reveal_strlit("MOVIA ");
        },
        OpCode::MoveImmToPortDir(_) => {
            reveal_strlit("MOVA1F ");
        },
        OpCode::MoveImmToPortIo(_) => {
            reveal_strlit("MOVA2F ");
        },
        OpCode::MoveImmToP2(_) => {
            reveal_strlit("MOVA2P ");
        },
        OpCode::MoveImmToP1(_) => {
            reveal_strlit("MOVA1P ");
        },
        OpCode::MoveImm(_) => {
            reveal_strlit("MOVL ");
        },
        OpCode::AndImm(_) => {
            reveal_strlit("ANDL ");
        },
        OpCode::OrImm(_) => {
            reveal_strlit("IORL ");
        },
        OpCode::XorImm(_) => {
            reveal_strlit("XORL ");
        },
        OpCode::AddImm(_) => {
            reveal_strlit("ADDL ");
        },
        OpCode::SubImm(_) => {
            reveal_strlit("SUBL ");
        },
        OpCode::CompareImmNegate(_) => {
            reveal_strlit("CMPLN ");
        },
        OpCode::CompareImm(_) => {
            reveal_strlit("CMPL ");
        },
        OpCode::BitClear(_, _) => {
            reveal_strlit("BC ");
        },
        OpCode::BitSet(_, _) => {
            reveal_strlit("BS ");
        },
        OpCode::BitTestSkipIfClear(_, _) => {
            reveal_strlit("BTSC ");
        },
        OpCode::BitTestSkipIfSet(_, _) => {
            reveal_strlit("BTSS ");
        },
        OpCode::BitToC(_) => {
            reveal_strlit("BCTC ");
        },
        OpCode::BitOut1(_, _) => {
            reveal_strlit("BP1F ");
        },
        OpCode::BitOut2(_, _) => {
            reveal_strlit("BP2F ");
        },
        OpCode::BitIn1(_, _) => {
            reveal_strlit("BG1F ");
        },
        OpCode::BitIn2(_, _) => {
            reveal_strlit("BG2F ");
        },
        OpCode::Jump(_) => {
            reveal_strlit("JMP ");
        },
        OpCode::Call(_) => {
            reveal_strlit("CALL ");
        },
        OpCode::JumpIfNotZero(_) => {
            reveal_strlit("JNZ ");
        },
        OpCode::JumpIfZero(_) => {
            reveal_strlit("JZ ");
        },
        OpCode::JumpIfNotCarry(_) => {
            reveal_strlit("JNC ");
        },
        OpCode::JumpIfCarry(_) => {
            reveal_strlit("JC ");
        },
        OpCode::JumpIfEqual(_, _) => {
            reveal_strlit("CMPZ ");
        },
        OpCode::PushIndirAddr2 => {
            reveal_strlit("PUSHA2");
        },
        OpCode::PopIndirAddr2 => {
            reveal_strlit("POPA2");
        },
        OpCode::Unknown(_) => {
        },
    }
}

/// Disassembly never gets stuck on decoded input: every word the decode
/// table covers yields an instruction the renderer accepts, and its
/// rendering is a non-empty line.
pub proof fn lemma_decode_renders(word: u16)
    ensures
        crate::opcode::spec_decode(word) matches Ok(op) ==> !(op is Unknown) && spec_asm(
            op,
        ).len() > 0,
{
    let r = crate::opcode::spec_decode(word);
    if r is Ok {
        let op = r->Ok_0;
        assert(!(op is Unknown));
        lemma_render_nonempty(op);
    }
}

} // verus!
