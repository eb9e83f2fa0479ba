//! The line parser: reads one whitespace-split source line into an
//! instruction. A deliberate stub covering a handful of mnemonics, with
//! errors that distinguish an unknown mnemonic, a wrong operand count, a
//! non-numeric operand, and an operand outside its bit width.

use vstd::prelude::*;

use crate::bits::{lemma_u2_from_wide_value, lemma_u2_value_injective, U2};
use crate::opcode::OpCode;
use crate::text::{parse_u8_dec, spec_parse_u8_dec, upper_seq, eq_ignore_ascii_case};

verus! {

/// Whether `c` is an ASCII whitespace character: space, tab, line feed or
/// carriage return.
pub open spec fn is_space(c: char) -> bool {
    c == ' ' || c == '\t' || c == '\n' || c == '\r'
}

fn is_space_exec(c: char) -> (r: bool)
    ensures
        r == is_space(c),
{
    c == ' ' || c == '\t' || c == '\n' || c == '\r'
}

/// One step at a time through `s` from position `i`: `cur` is the token
/// read so far, `out` the tokens already finished. Whitespace closes the
/// current token; anything else extends it.
pub open spec fn split_acc(s: Seq<char>, i: nat, cur: Seq<char>, out: Seq<Seq<char>>) -> Seq<
    Seq<char>,
>
    decreases s.len() - i,
{
    if i >= s.len() {
        if cur.len() > 0 {
            out.push(cur)
        } else {
            out
        }
    } else if is_space(s[i as int]) {
        if cur.len() > 0 {
            split_acc(s, i + 1, Seq::empty(), out.push(cur))
        } else {
            split_acc(s, i + 1, Seq::empty(), out)
        }
    } else {
        split_acc(s, i + 1, cur.push(s[i as int]), out)
    }
}

/// The whitespace-separated tokens of `s`, in order, each non-empty.
pub open spec fn split_ws_spec(s: Seq<char>) -> Seq<Seq<char>> {
    split_acc(s, 0, Seq::empty(), Seq::empty())
}

/// Walking over the non-space characters of `[i, j)` extends the current
/// token by exactly those characters.
proof fn lemma_split_acc_extend(s: Seq<char>, i: nat, j: nat, cur: Seq<char>, out: Seq<Seq<char>>)
    requires
        i < j <= s.len(),
        forall|m: int| i <= m < j ==> !is_space(s[m]),
    ensures
        split_acc(s, i, cur, out) == split_acc(s, j, cur + s.subrange(i as int, j as int), out),
    decreases j - i,
{
    if i + 1 == j {
        assert(cur.push(s[i as int]) =~= cur + s.subrange(i as int, j as int));
    } else {
        lemma_split_acc_extend(s, i + 1, j, cur.push(s[i as int]), out);
        assert(cur.push(s[i as int]) + s.subrange(i + 1 as int, j as int) =~= cur + s.subrange(
            i as int,
            j as int,
        ));
    }
}

/// Splits `s` at ASCII whitespace into its non-empty tokens, in order.
pub fn split_ws(s: &str) -> (r: Vec<String>)
    ensures
        r.deep_view() == split_ws_spec(s@),
{
    let n = s.unicode_len();
    let mut out: Vec<String> = Vec::new();
    proof {
        assert(out.deep_view() =~= Seq::<Seq<char>>::empty());
    }
    let mut i: usize = 0;
    while i < n
        invariant
            n == s@.len(),
            i <= n,
            split_acc(s@, i as nat, Seq::empty(), out.deep_view()) == split_ws_spec(s@),
        decreases n - i,
    {
        let c = s.get_char(i);
        if is_space_exec(c) {
            i += 1;
        } else {
            let mut j: usize = i + 1;
            while j < n && !is_space_exec(s.get_char(j))
                invariant
                    n == s@.len(),
                    i < j <= n,
                    forall|m: int| i <= m < j ==> !is_space(s@[m]),
                decreases n - j,
            {
                j += 1;
            }
            let token = s.substring_char(i, j).to_owned();
            proof {
                lemma_split_acc_extend(s@, i as nat, j as nat, Seq::empty(), out.deep_view());
                assert(Seq::empty() + s@.subrange(i as int, j as int) =~= s@.subrange(
                    i as int,
                    j as int,
                ));
            }
            let ghost old_out = out.deep_view();
            let ghost tok = s@.subrange(i as int, j as int);
            out.push(token);
            proof {
                assert(out.deep_view() =~= old_out.push(tok));
            }
            i = j;
        }
    }
    proof {
        assert(split_acc(s@, i as nat, Seq::empty(), out.deep_view()) == out.deep_view());
    }
    out
}

/// The 2-bit operand spelled by `s`, or the error text: one message for a
/// token that is not a number, another for a number outside the 2-bit
/// range.
pub open spec fn spec_parse_u2(s: Seq<char>) -> Result<U2, Seq<char>> {
    match spec_parse_u8_dec(s) {
        Option::None => Err("Invalid U2 value"@),
        Option::Some(v) => if v < 4 {
            Ok(U2::spec_from_wide(v))
        } else {
            Err("U2 value must be 0, 1, 2, or 3"@)
        },
    }
}

/// Reads a 2-bit operand, distinguishing "not a number" from "out of the
/// field's bit width".
pub fn parse_u2(s: &str) -> (r: Result<U2, String>)
    ensures
        r is Ok <==> spec_parse_u2(s@) is Ok,
        r is Ok ==> r->Ok_0 == spec_parse_u2(s@)->Ok_0,
        r is Err ==> r->Err_0@ == spec_parse_u2(s@)->Err_0,
{
    match parse_u8_dec(s) {
        Option::None => Err("Invalid U2 value".to_owned()),
        Option::Some(v) => {
            match U2::new(v) {
                Option::Some(u) => {
                    proof {
                        assert(v & 0b11 == v) by (bit_vector)
                            requires
                                v < 4,
                        ;
                        lemma_u2_from_wide_value(v);
                        lemma_u2_value_injective(u, U2::spec_from_wide(v));
                    }
                    Ok(u)
                },
                Option::None => Err("U2 value must be 0, 1, 2, or 3".to_owned()),
            }
        },
    }
}

/// The instruction spelled by one source line, or the error text. The
/// mnemonic is matched case-insensitively; the recognized set is `NOP`,
/// `CLRWDT` and `SLEEPX` with one 2-bit operand.
pub open spec fn spec_parse_line(s: Seq<char>) -> Result<OpCode, Seq<char>> {
    let parts = split_ws_spec(s);
    if parts.len() == 0 {
        Err("Empty line"@)
    } else {
        let m = upper_seq(parts[0]);
        if m == "NOP"@ {
            Ok(OpCode::Nop)
        } else if m == "CLRWDT"@ {
            Ok(OpCode::ClearWatchDog)
        } else if m == "SLEEPX"@ {
            if parts.len() != 2 {
                Err("SLEEPX requires one argument"@)
            } else {
                match spec_parse_u2(parts[1]) {
                    Ok(k2) => Ok(OpCode::Sleep(k2)),
                    Err(e) => Err(e),
                }
            }
        } else {
            Err("Unknown instruction: "@ + parts[0])
        }
    }
}

/// Reads one source line into an instruction: whitespace-split, mnemonic
/// matched case-insensitively. Errors are local to the line and returned,
/// never thrown.
pub fn parse_line(line: &str) -> (r: Result<OpCode, String>)
    ensures
        r is Ok <==> spec_parse_line(line@) is Ok,
        r is Ok ==> r->Ok_0 == spec_parse_line(line@)->Ok_0,
        r is Err ==> r->Err_0@ == spec_parse_line(line@)->Err_0,
{
    let parts = split_ws(line);
    proof {
        assert(parts.deep_view().len() == parts@.len());
    }
    if parts.len() == 0 {
        return Err("Empty line".to_owned());
    }
    proof {
        assert(parts.deep_view()[0] == parts@[0]@);
    }
    if eq_ignore_ascii_case(parts[0].as_str(), "NOP") {
        Ok(OpCode::Nop)
    } else if eq_ignore_ascii_case(parts[0].as_str(), "CLRWDT") {
        Ok(OpCode::ClearWatchDog)
    } else if eq_ignore_ascii_case(parts[0].as_str(), "SLEEPX") {
        if parts.len() != 2 {
            Err("SLEEPX requires one argument".to_owned())
        } else {
            proof {
                assert(parts.deep_view()[1] == parts@[1]@);
            }
            match parse_u2(parts[1].as_str()) {
                Ok(k2) => Ok(OpCode::Sleep(k2)),
                Err(e) => Err(e),
            }
        }
    } else {
        let mut e = String::new();
        e.append("Unknown instruction: ");
        e.append(parts[0].as_str());
        proof {
            assert(e@ =~= "Unknown instruction: "@ + split_ws_spec(line@)[0]);
        }
        Err(e)
    }
}

} // verus!
