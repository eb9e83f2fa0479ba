//! Verified plain-text helpers: decimal, hexadecimal and binary rendering
//! of the numeric operands that appear in disassembly output.

use vstd::prelude::*;

verus! {

/// The decimal digit character for `d`, which must be below ten.
pub open spec fn digit_char(d: int) -> char {
    if d == 0 {
        '0'
    } else if d == 1 {
        '1'
    } else if d == 2 {
        '2'
    } else if d == 3 {
        '3'
    } else if d == 4 {
        '4'
    } else if d == 5 {
        '5'
    } else if d == 6 {
        '6'
    } else if d == 7 {
        '7'
    } else if d == 8 {
        '8'
    } else {
        '9'
    }
}

/// The decimal rendering of `n`, most significant digit first.
pub open spec fn dec_str(n: int) -> Seq<char>
    decreases n,
{
    if n < 10 {
        seq![digit_char(n)]
    } else {
        dec_str(n / 10).push(digit_char(n % 10))
    }
}

fn digit_text(d: u8) -> (r: &'static str)
    requires
        d < 10,
    ensures
        r@ == seq![digit_char(d as int)],
{
    proof {
        reveal_strlit("0");
        reveal_strlit("1");
        reveal_strlit("2");
        reveal_strlit("3");
        reveal_strlit("4");
        reveal_strlit("5");
        reveal_strlit("6");
        reveal_strlit("7");
        reveal_strlit("8");
        reveal_strlit("9");
    }
    match d {
        0 => "0",
        1 => "1",
        2 => "2",
        3 => "3",
        4 => "4",
        5 => "5",
        6 => "6",
        7 => "7",
        8 => "8",
        _ => "9",
    }
}

/// Renders `n` in decimal, without sign or padding.
pub fn u16_dec(n: u16) -> (r: String)
    ensures
        r@ == dec_str(n as int),
    decreases n,
{
    if n < 10 {
        let mut s = String::new();
        s.append(digit_text(n as u8));
        proof {
            assert(s@ =~= dec_str(n as int));
        }
        s
    } else {
        let mut s = u16_dec(n / 10);
        s.append(digit_text((n % 10) as u8));
        proof {
            assert(s@ =~= dec_str(n as int));
        }
        s
    }
}

/// Renders `n` in decimal, without sign or padding.
pub fn u8_dec(n: u8) -> (r: String)
    ensures
        r@ == dec_str(n as int),
{
    u16_dec(n as u16)
}

/// The uppercase hexadecimal digit character for `d`, which must be below
/// sixteen.
pub open spec fn hex_digit_char(d: int) -> char {
    if d < 10 {
        digit_char(d)
    } else if d == 10 {
        'A'
    } else if d == 11 {
        'B'
    } else if d == 12 {
        'C'
    } else if d == 13 {
        'D'
    } else if d == 14 {
        'E'
    } else {
        'F'
    }
}

/// The four-digit, zero-padded uppercase hexadecimal rendering of `n`.
pub open spec fn hex4_str(n: u16) -> Seq<char> {
    seq![
        hex_digit_char(((n >> 12) & 0xF) as int),
        hex_digit_char(((n >> 8) & 0xF) as int),
        hex_digit_char(((n >> 4) & 0xF) as int),
        hex_digit_char((n & 0xF) as int),
    ]
}

fn hex_digit_text(d: u8) -> (r: &'static str)
    requires
        d < 16,
    ensures
        r@ == seq![hex_digit_char(d as int)],
{
    proof {
        reveal_strlit("A");
        reveal_strlit("B");
        reveal_strlit("C");
        reveal_strlit("D");
        reveal_strlit("E");
        reveal_strlit("F");
    }
    if d < 10 {
        digit_text(d)
    } else {
        match d {
            10 => "A",
            11 => "B",
            12 => "C",
            13 => "D",
            14 => "E",
            _ => "F",
        }
    }
}

/// Renders `n` as four uppercase hexadecimal digits, zero-padded.
pub fn u16_hex4(n: u16) -> (r: String)
    ensures
        r@ == hex4_str(n),
{
    proof {
        assert((n >> 12) & 0xF < 16 && (n >> 8) & 0xF < 16 && (n >> 4) & 0xF < 16 && n & 0xF < 16)
            by (bit_vector);
    }
    let mut s = String::new();
    s.append(hex_digit_text(((n >> 12) & 0xF) as u8));
    s.append(hex_digit_text(((n >> 8) & 0xF) as u8));
    s.append(hex_digit_text(((n >> 4) & 0xF) as u8));
    s.append(hex_digit_text((n & 0xF) as u8));
    proof {
        assert(s@ =~= hex4_str(n));
    }
    s
}

/// The binary rendering of the low `width` bits of `n`, most significant
/// bit first.
pub open spec fn bin_str(n: int, width: nat) -> Seq<char>
    decreases width,
{
    if width == 0 {
        Seq::empty()
    } else {
        bin_str(n / 2, (width - 1) as nat).push(
            if n % 2 == 1 {
                '1'
            } else {
                '0'
            },
        )
    }
}

fn u16_bin_rec(n: u16, width: u8) -> (r: String)
    ensures
        r@ == bin_str(n as int, width as nat),
    decreases width,
{
    proof {
        reveal_strlit("0");
        reveal_strlit("1");
    }
    if width == 0 {
        String::new()
    } else {
        let mut s = u16_bin_rec(n / 2, width - 1);
        s.append(
            if n % 2 == 1 {
                "1"
            } else {
                "0"
            },
        );
        proof {
            assert(s@ =~= bin_str(n as int, width as nat));
        }
        s
    }
}

/// Renders `n` as sixteen binary digits, zero-padded.
pub fn u16_bin16(n: u16) -> (r: String)
    ensures
        r@ == bin_str(n as int, 16),
{
    u16_bin_rec(n, 16)
}

/// `c` with an ASCII lowercase letter folded to its uppercase form; any
/// other character is unchanged.
pub open spec fn upper_char(c: char) -> char {
    if 97 <= c as u32 && c as u32 <= 122 {
        ((c as u32 - 32) as u8) as char
    } else {
        c
    }
}

/// `s` with every ASCII lowercase letter folded to uppercase.
pub open spec fn upper_seq(s: Seq<char>) -> Seq<char> {
    s.map_values(|c: char| upper_char(c))
}

/// Folds one ASCII lowercase letter to uppercase; other characters pass
/// through unchanged.
pub fn upper_char_exec(c: char) -> (r: char)
    ensures
        r == upper_char(c),
{
    let u = c as u32;
    if 97 <= u && u <= 122 {
        (u - 32) as u8 as char
    } else {
        c
    }
}

/// Whether `c` is a decimal digit.
pub open spec fn is_digit(c: char) -> bool {
    48 <= c as u32 <= 57
}

/// The numeric value of a digit character; zero for anything else.
pub open spec fn digit_of(c: char) -> int {
    if is_digit(c) {
        c as u32 - 48
    } else {
        0
    }
}

/// Whether `s` is one or more decimal digits and nothing else.
pub open spec fn all_digits(s: Seq<char>) -> bool {
    forall|i: int| 0 <= i < s.len() ==> is_digit(s[i])
}

/// The number spelled by the digit characters of `s`, most significant
/// digit first (meaningful when `all_digits(s)` holds).
pub open spec fn digits_val(s: Seq<char>) -> int
    decreases s.len(),
{
    if s.len() == 0 {
        0
    } else {
        digits_val(s.drop_last()) * 10 + digit_of(s.last())
    }
}

/// A digit string never spells a negative number.
pub proof fn lemma_digits_val_nonneg(s: Seq<char>)
    ensures
        digits_val(s) >= 0,
    decreases s.len(),
{
    if s.len() > 0 {
        lemma_digits_val_nonneg(s.drop_last());
    }
}

/// The decimal number spelled by `s`, as `u8::from_str` reads it: an
/// optional leading plus sign, then one or more digits, rejected if the
/// value does not fit in a byte.
pub open spec fn spec_parse_u8_dec(s: Seq<char>) -> Option<u8> {
    let t = if s.len() > 0 && s[0] == '+' {
        s.skip(1)
    } else {
        s
    };
    if t.len() > 0 && all_digits(t) && digits_val(t) <= 255 {
        Some(digits_val(t) as u8)
    } else {
        None
    }
}

/// Reads a decimal byte: an optional leading plus sign, then one or more
/// digits; `None` on any other character or a value above 255.
pub fn parse_u8_dec(s: &str) -> (r: Option<u8>)
    ensures
        r == spec_parse_u8_dec(s@),
{
    let n = s.unicode_len();
    let start: usize = if n > 0 && s.get_char(0) == '+' {
        1
    } else {
        0
    };
    if n == start {
        return None;
    }
    let ghost t = if s@.len() > 0 && s@[0] == '+' {
        s@.skip(1)
    } else {
        s@
    };
    let mut acc: u16 = 0;
    let mut overflow: bool = false;
    let mut i: usize = start;
    while i < n
        invariant
            n == s@.len(),
            start <= i <= n,
            start == 0 || start == 1,
            start == 1 ==> n > 0 && s@[0] == '+',
            start == 0 ==> !(s@.len() > 0 && s@[0] == '+'),
            t == s@.skip(start as int),
            start < n,
            forall|j: int| start <= j < i ==> is_digit(s@[j]),
            !overflow ==> acc <= 255 && acc == digits_val(s@.subrange(start as int, i as int)),
            overflow ==> digits_val(s@.subrange(start as int, i as int)) > 255,
        decreases n - i,
    {
        let c = s.get_char(i);
        let u = c as u32;
        if !(48 <= u && u <= 57) {
            proof {
                assert(t[i - start] == s@[i as int]);
            }
            return None;
        }
        let d = (u - 48) as u16;
        proof {
            assert(s@.subrange(start as int, i + 1 as int).drop_last() =~= s@.subrange(
                start as int,
                i as int,
            ));
            lemma_digits_val_nonneg(s@.subrange(start as int, i as int));
        }
        if !overflow {
            let next = acc * 10 + d;
            if next > 255 {
                overflow = true;
            } else {
                acc = next;
            }
        }
        i += 1;
    }
    proof {
        assert(s@.subrange(start as int, n as int) =~= t);
        assert(forall|j: int| 0 <= j < t.len() ==> t[j] == s@[j + start]);
    }
    if overflow {
        None
    } else {
        Some(acc as u8)
    }
}

/// Case folding never touches digits or the plus sign, and never creates
/// one.
pub proof fn lemma_upper_char_class(c: char)
    ensures
        is_digit(upper_char(c)) == is_digit(c),
        digit_of(upper_char(c)) == digit_of(c),
        (upper_char(c) == '+') == (c == '+'),
{
    if 97 <= c as u32 && c as u32 <= 122 {
        assert(upper_char(c) as u32 == c as u32 - 32);
    }
}

/// Case folding does not change the number a string of digits spells.
pub proof fn lemma_digits_val_upper(t: Seq<char>)
    ensures
        digits_val(upper_seq(t)) == digits_val(t),
    decreases t.len(),
{
    if t.len() > 0 {
        assert(upper_seq(t).drop_last() =~= upper_seq(t.drop_last()));
        lemma_upper_char_class(t.last());
        lemma_digits_val_upper(t.drop_last());
    }
}

/// Reading a decimal byte from a string and from its case-folded form
/// gives the same result.
pub proof fn lemma_parse_u8_upper(t: Seq<char>)
    ensures
        spec_parse_u8_dec(upper_seq(t)) == spec_parse_u8_dec(t),
{
    let u = upper_seq(t);
    if t.len() > 0 {
        lemma_upper_char_class(t[0]);
    }
    let t2 = if t.len() > 0 && t[0] == '+' {
        t.skip(1)
    } else {
        t
    };
    let u2 = if u.len() > 0 && u[0] == '+' {
        u.skip(1)
    } else {
        u
    };
    assert(u2 =~= upper_seq(t2));
    assert forall|i: int| 0 <= i < t2.len() implies is_digit(u2[i]) == is_digit(t2[i]) by {
        lemma_upper_char_class(t2[i]);
    }
    assert(all_digits(u2) == all_digits(t2));
    lemma_digits_val_upper(t2);
}

/// Whether `s`, with ASCII case folded away, spells exactly `t`.
pub fn eq_ignore_ascii_case(s: &str, t: &str) -> (r: bool)
    ensures
        r == (upper_seq(s@) == t@),
{
    let n = s.unicode_len();
    if n != t.unicode_len() {
        proof {
            assert(upper_seq(s@).len() == s@.len());
        }
        return false;
    }
    let mut i: usize = 0;
    while i < n
        invariant
            n == s@.len(),
            n == t@.len(),
            0 <= i <= n,
            forall|j: int| 0 <= j < i ==> upper_seq(s@)[j] == t@[j],
        decreases n - i,
    {
        let c = upper_char_exec(s.get_char(i));
        if c != t.get_char(i) {
            proof {
                assert(upper_seq(s@)[i as int] != t@[i as int]);
            }
            return false;
        }
        i += 1;
    }
    proof {
        assert(upper_seq(s@) =~= t@);
    }
    true
}

} // verus!
