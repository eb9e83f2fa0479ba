use pioc::bits::{U10, U12, U2, U3, U7, U9};
use pioc::opcode::{word_from_bytes, DecodeError, OpCode};
use pioc::types::{Dest, Label, Reg, WaitBit};

#[test]
fn bit_field_new_accepts_exactly_the_range() {
    assert!(U2::new(0).is_some());
    assert!(U2::new(3).is_some());
    assert!(U2::new(4).is_none());
    assert!(U2::new(255).is_none());
    assert!(U3::new(7).is_some());
    assert!(U3::new(8).is_none());
    assert!(U7::new(127).is_some());
    assert!(U7::new(128).is_none());
    assert!(U9::new(511).is_some());
    assert!(U9::new(512).is_none());
    assert!(U10::new(1023).is_some());
    assert!(U10::new(1024).is_none());
    assert!(U12::new(4095).is_some());
    assert!(U12::new(4096).is_none());
}

#[test]
fn bit_field_new_keeps_the_value() {
    assert_eq!(U2::new(2).unwrap().value(), 2);
    assert_eq!(U3::new(5).unwrap().value(), 5);
    assert_eq!(U7::new(100).unwrap().value(), 100);
    assert_eq!(U9::new(300).unwrap().value(), 300);
    assert_eq!(U10::new(1000).unwrap().value(), 1000);
    assert_eq!(U12::new(4000).unwrap().value(), 4000);
}

#[test]
fn bit_field_from_wide_truncates() {
    assert_eq!(U2::from_wide(0xFF).value(), 0b11);
    assert_eq!(U3::from_wide(0xFF).value(), 0b111);
    assert_eq!(U7::from_wide(0xFF).value(), 0x7F);
    assert_eq!(U9::from_wide(0xFFFF).value(), 0x1FF);
    assert_eq!(U10::from_wide(0xFFFF).value(), 0x3FF);
    assert_eq!(U12::from_wide(0xFFFF).value(), 0xFFF);
}

#[test]
fn bit_field_from_wide_is_identity_in_range() {
    for v in 0u8..4 {
        assert_eq!(U2::from_wide(v).value(), v);
    }
    for v in 0u8..8 {
        assert_eq!(U3::from_wide(v).value(), v);
    }
}

#[test]
fn dest_selector_round_trips() {
    assert_eq!(bool::from(Dest::from(false)), false);
    assert_eq!(bool::from(Dest::from(true)), true);
    assert_eq!(Dest::from(bool::from(Dest::A)), Dest::A);
    assert_eq!(Dest::from(bool::from(Dest::F)), Dest::F);
}

#[test]
fn decode_priority_scenarios() {
    assert_eq!(OpCode::from_word(0x0000), Ok(OpCode::Nop));
    assert_eq!(OpCode::from_word(0x0008), Ok(OpCode::ClearWatchDog));
    assert_eq!(OpCode::from_word(0x000C), Ok(OpCode::Sleep(U2::new(0).unwrap())));
    assert_eq!(OpCode::from_word(0x000F), Ok(OpCode::Sleep(U2::new(3).unwrap())));
}

#[test]
fn decode_overlapping_rules_keep_priority() {
    // 0x23 and 0x25 match the exact immediate rules before the wider
    // indirect-address masks that also cover them.
    assert_eq!(OpCode::from_word(0x2311), Ok(OpCode::MoveImmToPortDir(0x11)));
    assert_eq!(OpCode::from_word(0x2511), Ok(OpCode::MoveImmToPortIo(0x11)));
    assert_eq!(
        OpCode::from_word(0x2211),
        Ok(OpCode::MoveImmToIndirAddr1(U9::new(0x011).unwrap()))
    );
    assert_eq!(
        OpCode::from_word(0x2411),
        Ok(OpCode::MoveImmToIndirAddr2(U10::new(0x011).unwrap()))
    );
    // The table maps both 0x26 and 0x27 to the same variant; the second
    // rule is shadowed and MoveImmToP1 is never produced.
    assert_eq!(OpCode::from_word(0x2601), Ok(OpCode::MoveImmToP2(0x01)));
    assert_eq!(OpCode::from_word(0x2701), Ok(OpCode::MoveImmToP2(0x01)));
    // The wait rule (wider mask on the low byte) wins over the exact word
    // 0x0014 that a later rule would otherwise claim.
    assert_eq!(OpCode::from_word(0x0014), Ok(OpCode::WaitB(WaitBit(U3::new(4).unwrap()))));
}

#[test]
fn decode_register_and_dest_extraction() {
    assert_eq!(OpCode::from_word(0x0203), Ok(OpCode::Move(Reg(U9::new(3).unwrap()), Dest::A)));
    assert_eq!(OpCode::from_word(0x1203), Ok(OpCode::Move(Reg(U9::new(3).unwrap()), Dest::F)));
    assert_eq!(OpCode::from_word(0x0420), Ok(OpCode::Inc(Reg(0x20), Dest::A)));
    assert_eq!(OpCode::from_word(0x1420), Ok(OpCode::Inc(Reg(0x20), Dest::F)));
    assert_eq!(OpCode::from_word(0x01AB), Ok(OpCode::Clear(Reg(0xAB))));
}

#[test]
fn decode_unknown_words_report_the_word() {
    assert_eq!(OpCode::from_word(0x0040), Err(DecodeError { word: 0x0040 }));
    assert_eq!(
        DecodeError { word: 0x0040 }.message(),
        "unknown opcode: 0x0040 0b0000000001000000"
    );
}

#[test]
fn decode_covers_all_but_the_known_gap() {
    // The only uncovered bit patterns are high byte 0x00 with low byte in
    // 0x3C..=0x7F.
    let mut errors = 0u32;
    for word in 0u16..=0xFFFF {
        match OpCode::from_word(word) {
            Ok(op) => assert!(!matches!(op, OpCode::Unknown(_))),
            Err(e) => {
                assert_eq!(e.word, word);
                assert_eq!(word >> 8, 0);
                let k = word & 0xFF;
                assert!((0x3C..=0x7F).contains(&k));
                errors += 1;
            }
        }
    }
    assert_eq!(errors, 68);
}

#[test]
fn encode_decode_round_trip() {
    let mut encodable = vec![
        OpCode::Nop,
        OpCode::ClearWatchDog,
        OpCode::PushA,
        OpCode::PopA,
    ];
    for v in 0u8..4 {
        encodable.push(OpCode::Sleep(U2::new(v).unwrap()));
    }
    for v in 0u8..8 {
        encodable.push(OpCode::WaitB(WaitBit(U3::new(v).unwrap())));
    }
    for op in encodable {
        let bytes = op.to_bytes().unwrap();
        let word = word_from_bytes(bytes[0], bytes[1]);
        assert_eq!(OpCode::from_word(word), Ok(op));
    }
}

#[test]
fn encode_exact_bytes() {
    assert_eq!(OpCode::Nop.to_bytes().unwrap(), [0x00, 0x00]);
    assert_eq!(OpCode::ClearWatchDog.to_bytes().unwrap(), [0x00, 0x08]);
    assert_eq!(OpCode::Sleep(U2::new(3).unwrap()).to_bytes().unwrap(), [0x00, 0x0F]);
    assert_eq!(
        OpCode::WaitB(WaitBit(U3::new(2).unwrap())).to_bytes().unwrap(),
        [0x00, 0x12]
    );
    assert_eq!(OpCode::PushA.to_bytes().unwrap(), [0x00, 0x20]);
    assert_eq!(OpCode::PopA.to_bytes().unwrap(), [0x00, 0x24]);
}

#[test]
fn encode_unsupported_variants_signal() {
    assert!(OpCode::ClearA.to_bytes().is_err());
    assert!(OpCode::MoveImm(1).to_bytes().is_err());
    assert!(OpCode::Jump(Label(U12::new(5).unwrap())).to_bytes().is_err());
    assert!(OpCode::Unknown(0x0040).to_bytes().is_err());
}

#[test]
fn render_never_fails_on_decoded_words() {
    for word in 0u16..=0xFFFF {
        if let Ok(op) = OpCode::from_word(word) {
            let line = op.to_wch_risc8b_asm().unwrap();
            assert!(!line.is_empty());
        }
    }
}

#[test]
fn render_unknown_signals() {
    assert!(OpCode::Unknown(0x0040).to_wch_risc8b_asm().is_err());
}

#[test]
fn render_label_widths() {
    // A label field of 5 renders as .L5 at each of the three widths.
    let jmp = OpCode::from_word(0x6005).unwrap();
    assert_eq!(jmp.to_wch_risc8b_asm().unwrap(), "JMP .L5");
    let jz = OpCode::from_word(0x3005).unwrap();
    assert_eq!(jz.to_wch_risc8b_asm().unwrap(), "JZ .L5");
    let cmpz = OpCode::from_word(0x8005).unwrap();
    assert_eq!(
        cmpz.to_wch_risc8b_asm().unwrap(),
        "CMPZ 0, .L5\t; .L5->PC[7:0] if A==0"
    );
}

#[test]
fn render_exact_lines() {
    let cases: Vec<(u16, &str)> = vec![
        (0x0000, "NOP"),
        (0x0008, "CLRWDT"),
        (0x000E, "SLEEPX 2"),
        (0x0012, "WAITB WB_PORT_I0_FALL"),
        (0x0020, "PUSHA"),
        (0x0024, "POPA"),
        (0x0028, "PUSHA2"),
        (0x002C, "POPA2"),
        (0x0030, "RET"),
        (0x0034, "RETZ"),
        (0x0038, "RETIE"),
        (0x0004, "CLRA"),
        (0x0019, "RCODE 1"),
        (0x001D, "BCTC BitCycle[RX_I0]\t; BitCycle[RX_I0]->C"),
        (0x01AB, "CLR $ERR\t; 0x00->$ERR, 1->Z"),
        (0x0103, "CLR $SR\t; 0x00->$SR, 1->Z"),
        (0x1003, "MOVA $SR\t; A->$SR"),
        (0x0203, "MOV $SR, A\t; $SR->A"),
        (0x1220, "MOV $D0, F\t; $D0->F"),
        (0x0420, "INC $D0, A\t; $D0+1->A"),
        (0x0520, "DEC $D0, A\t; $D0-1->A"),
        (0x0620, "INCSZ $D0, A\t; $D0+1->A, skip if Z"),
        (0x0720, "DECSZ $D0, A\t; $D0-1->A, skip if Z"),
        (0x0820, "SWAP $D0, A\t; $D0[3:0]<=>$D0[7:4] -> A"),
        (0x0920, "AND $D0, A\t; $D0&A->A"),
        (0x0A20, "IOR $D0, A\t; $D0|A->A"),
        (0x0B20, "XOR $D0, A\t; $D0^A->A"),
        (0x0C20, "ADD $D0, A\t; $D0+A->A"),
        (0x0D20, "SUB $D0, A\t; $D0-A->A"),
        (0x0E20, "RCL $D0, A\t; {$D0,C}<<1->A,$D0[7]->C"),
        (0x0F20, "RCR $D0, A"),
        (0x2005, "RETL 5"),
        (0x2105, "RETLN 5"),
        (0x2205, "MOVIP 5\t; 5->SFR_INDIR_ADDR"),
        (0x2405, "MOVIA 5\t; 5->SFR_INDIR_ADDR2"),
        (0x2305, "MOVA1F 5\t; 5->SFR_PORT_DIR"),
        (0x2505, "MOVA2F 5\t; 5->SFR_PORT_IO"),
        (0x2605, "MOVA2P 5\t; 5->@SFR_INDIR_ADDR2"),
        (0x28FF, "MOVL 255\t; 255->A"),
        (0x2905, "ANDL 5\t; 5&A->A"),
        (0x2A05, "IORL 5\t; 5|A->A"),
        (0x2B05, "XORL 5\t; 5^A->A"),
        (0x2C05, "ADDL 5\t; 5+A->A"),
        (0x2D05, "SUBL 5\t; A-5->A"),
        (0x2E05, "CMPLN 5\t; 5+A -> Z,C"),
        (0x2F05, "CMPL 5\t; 5-A -> Z,C"),
        (0x4203, "BC $SR, 2\t; 0->$SR[2]"),
        (0x4A03, "BS $SR, 2\t; 1->$SR[2]"),
        (0x5203, "BTSC $SR, 2\t; skip if $SR[2]==0"),
        (0x5A03, "BTSS $SR, 2\t; skip if $SR[2]==1"),
        (0x008B, "BP1F BitCycle[TX_O0], 3\t; SFR_INDIR_ADDR[3]-> BitCycle[TX_O0]"),
        (0x00AB, "BP2F BitCycle[TX_O0], 3\t; SFR_DATA_EXCH[3]->BitCycle[TX_O0]"),
        (0x00CB, "BG1F BitCycle[RX_I0], 3\t; BitCycle[RX_I0]->SFR_INDIR_ADDR[3]"),
        (0x00EB, "BG2F BitCycle[RX_I0], 3\t; BitCycle[RX_I0]->SFR_DATA_EXCH[3]"),
        (0x6005, "JMP .L5"),
        (0x7005, "CALL .L5"),
        (0x3405, "JNZ .L5"),
        (0x3005, "JZ .L5"),
        (0x3C05, "JNC .L5"),
        (0x3805, "JC .L5"),
    ];
    for (word, expected) in cases {
        let op = OpCode::from_word(word).unwrap();
        assert_eq!(op.to_wch_risc8b_asm().unwrap(), expected, "word {word:#06X}");
    }
}

#[test]
fn bit_field_decimal_rendering() {
    assert_eq!(U2::new(3).unwrap().render(), "3");
    assert_eq!(U3::new(7).unwrap().render(), "7");
    assert_eq!(U7::new(100).unwrap().render(), "100");
    assert_eq!(U9::new(300).unwrap().render(), "300");
    assert_eq!(U10::new(0).unwrap().render(), "0");
    assert_eq!(U12::new(4095).unwrap().render(), "4095");
}
