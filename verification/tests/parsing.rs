use pioc::bits::U2;
use pioc::opcode::OpCode;
use pioc::parser::{parse_line, parse_u2, split_ws};

#[test]
fn parse_line_recognized_mnemonics() {
    assert_eq!(parse_line("NOP"), Ok(OpCode::Nop));
    assert_eq!(parse_line("CLRWDT"), Ok(OpCode::ClearWatchDog));
    assert_eq!(parse_line("SLEEPX 2"), Ok(OpCode::Sleep(U2::new(2).unwrap())));
}

#[test]
fn parse_line_is_case_insensitive() {
    assert_eq!(parse_line("nop"), Ok(OpCode::Nop));
    assert_eq!(parse_line("ClrWdt"), Ok(OpCode::ClearWatchDog));
    assert_eq!(parse_line("sleepx 0"), Ok(OpCode::Sleep(U2::new(0).unwrap())));
}

#[test]
fn parse_line_trims_and_splits_whitespace() {
    assert_eq!(parse_line("  NOP  "), Ok(OpCode::Nop));
    assert_eq!(parse_line("\tSLEEPX\t3\t"), Ok(OpCode::Sleep(U2::new(3).unwrap())));
}

#[test]
fn parse_line_errors() {
    assert_eq!(parse_line(""), Err("Empty line".to_string()));
    assert_eq!(parse_line("   "), Err("Empty line".to_string()));
    assert_eq!(parse_line("SLEEPX"), Err("SLEEPX requires one argument".to_string()));
    assert_eq!(parse_line("SLEEPX 1 2"), Err("SLEEPX requires one argument".to_string()));
    assert_eq!(parse_line("SLEEPX four"), Err("Invalid U2 value".to_string()));
    assert_eq!(parse_line("SLEEPX 4"), Err("U2 value must be 0, 1, 2, or 3".to_string()));
    assert_eq!(parse_line("MOVX 1"), Err("Unknown instruction: MOVX".to_string()));
}

#[test]
fn parse_u2_distinguishes_errors() {
    assert_eq!(parse_u2("0"), Ok(U2::new(0).unwrap()));
    assert_eq!(parse_u2("3"), Ok(U2::new(3).unwrap()));
    assert_eq!(parse_u2("4"), Err("U2 value must be 0, 1, 2, or 3".to_string()));
    assert_eq!(parse_u2("256"), Err("Invalid U2 value".to_string()));
    assert_eq!(parse_u2("x"), Err("Invalid U2 value".to_string()));
    assert_eq!(parse_u2(""), Err("Invalid U2 value".to_string()));
    assert_eq!(parse_u2("+1"), Ok(U2::new(1).unwrap()));
}

#[test]
fn split_ws_tokenizes() {
    let toks = split_ws("  one  two\tthree ");
    assert_eq!(toks, vec!["one".to_string(), "two".to_string(), "three".to_string()]);
    let empty = split_ws("   ");
    assert!(empty.is_empty());
}
