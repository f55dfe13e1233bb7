//! Rendering of the service's JSON bodies: string escaping and decimal
//! integers, each against a spec function that fixes the exact character
//! sequence produced.

use vstd::prelude::*;
use vstd::string::StrSliceExecFns;
use vstd::string::StringExecFns;

verus! {

/// The character for one digit value below sixteen, lower case.
pub open spec fn hex_digit(d: int) -> char {
    if d == 0 {
        '0'
    } else if d == 1 {
        '1'
    } else if d == 2 {
        '2'
    } else if d == 3 {
        '3'
    } else if d == 4 {
        '4'
    } else if d == 5 {
        '5'
    } else if d == 6 {
        '6'
    } else if d == 7 {
        '7'
    } else if d == 8 {
        '8'
    } else if d == 9 {
        '9'
    } else if d == 10 {
        'a'
    } else if d == 11 {
        'b'
    } else if d == 12 {
        'c'
    } else if d == 13 {
        'd'
    } else if d == 14 {
        'e'
    } else {
        'f'
    }
}

/// Decimal digits of a non-negative integer, most significant first.
pub open spec fn dec_digits(n: int) -> Seq<char>
    recommends
        n >= 0,
    decreases n,
{
    if n < 10 {
        seq![hex_digit(n)]
    } else {
        dec_digits(n / 10).push(hex_digit(n % 10))
    }
}

/// Decimal rendering of a signed integer: a minus sign for negative values,
/// then the digits of the magnitude.
pub open spec fn dec_int(n: int) -> Seq<char> {
    if n < 0 {
        seq!['-'] + dec_digits(-n)
    } else {
        dec_digits(n)
    }
}

/// How one character appears inside a JSON string: quote and backslash are
/// escaped, the five named control characters use their short escapes, the
/// remaining control characters use a four-digit lower-case hex escape, and
/// every other character stands for itself.
pub open spec fn escaped_char(c: char) -> Seq<char> {
    if c == '"' {
        seq!['\\', '"']
    } else if c == '\\' {
        seq!['\\', '\\']
    } else if c == '\u{8}' {
        seq!['\\', 'b']
    } else if c == '\u{9}' {
        seq!['\\', 't']
    } else if c == '\u{A}' {
        seq!['\\', 'n']
    } else if c == '\u{C}' {
        seq!['\\', 'f']
    } else if c == '\u{D}' {
        seq!['\\', 'r']
    } else if (c as u32) < 0x20 {
        seq!['\\', 'u', '0', '0', hex_digit((c as u32 / 16) as int), hex_digit((c as u32 % 16) as int)]
    } else {
        seq![c]
    }
}

/// The contents of a JSON string: each character in escaped form, in order.
pub open spec fn json_escaped(s: Seq<char>) -> Seq<char>
    decreases s.len(),
{
    if s.len() == 0 {
        Seq::empty()
    } else {
        json_escaped(s.drop_last()) + escaped_char(s.last())
    }
}

/// A complete JSON string token: the escaped contents between quotes.
pub open spec fn json_string(s: Seq<char>) -> Seq<char> {
    seq!['"'] + json_escaped(s) + seq!['"']
}

/// Appends the character for one digit value below sixteen.
fn append_digit(out: &mut String, d: u8)
    requires
        d < 16,
    ensures
        final(out)@ == old(out)@ + seq![hex_digit(d as int)],
{
    if d == 0 {
        proof { reveal_strlit("0"); }
        out.append("0");
    } else if d == 1 {
        proof { reveal_strlit("1"); }
        out.append("1");
    } else if d == 2 {
        proof { reveal_strlit("2"); }
        out.append("2");
    } else if d == 3 {
        proof { reveal_strlit("3"); }
        out.append("3");
    } else if d == 4 {
        proof { reveal_strlit("4"); }
        out.append("4");
    } else if d == 5 {
        proof { reveal_strlit("5"); }
        out.append("5");
    } else if d == 6 {
        proof { reveal_strlit("6"); }
        out.append("6");
    } else if d == 7 {
        proof { reveal_strlit("7"); }
        out.append("7");
    } else if d == 8 {
        proof { reveal_strlit("8"); }
        out.append("8");
    } else if d == 9 {
        proof { reveal_strlit("9"); }
        out.append("9");
    } else if d == 10 {
        proof { reveal_strlit("a"); }
        out.append("a");
    } else if d == 11 {
        proof { reveal_strlit("b"); }
        out.append("b");
    } else if d == 12 {
        proof { reveal_strlit("c"); }
        out.append("c");
    } else if d == 13 {
        proof { reveal_strlit("d"); }
        out.append("d");
    } else if d == 14 {
        proof { reveal_strlit("e"); }
        out.append("e");
    } else {
        proof { reveal_strlit("f"); }
        out.append("f");
    }
}

/// The digit characters of `ds`, read back to front.
pub open spec fn rev_digit_chars(ds: Seq<u8>) -> Seq<char> {
    Seq::new(ds.len(), |i: int| hex_digit(ds[ds.len() - 1 - i] as int))
}

/// Renders an unsigned integer in decimal.
pub fn render_u64(n: u64) -> (r: String)
    ensures
        r@ == dec_digits(n as int),
{
    let mut out = String::new();
    if n == 0 {
        append_digit(&mut out, 0);
        return out;
    }
    let mut rev: Vec<u8> = Vec::new();
    let mut m: u64 = n;
    while m > 0
        invariant
            forall|k: int| 0 <= k < rev@.len() ==> rev@[k] < 10,
            m > 0 ==> dec_digits(n as int) =~= dec_digits(m as int) + rev_digit_chars(rev@),
            m == 0 ==> dec_digits(n as int) =~= rev_digit_chars(rev@),
        decreases m,
    {
        let d: u8 = (m % 10) as u8;
        proof {
            assert(m / 10 < m) by (nonlinear_arith)
                requires m >= 1;
            let ds = rev@;
            assert(rev_digit_chars(ds.push(d)) =~= seq![hex_digit(d as int)] + rev_digit_chars(ds));
            if m >= 10 {
                assert(dec_digits(m as int) =~= dec_digits(m as int / 10) + seq![
                    hex_digit(m as int % 10),
                ]);
                assert(dec_digits(m as int / 10) + (seq![hex_digit(d as int)] + rev_digit_chars(ds))
                    =~= (dec_digits(m as int / 10) + seq![hex_digit(d as int)])
                    + rev_digit_chars(ds));
            } else {
                assert(dec_digits(m as int) =~= seq![hex_digit(d as int)]);
            }
        }
        rev.push(d);
        m = m / 10;
    }
    let count: usize = rev.len();
    let mut i: usize = 0;
    while i < count
        invariant
            i <= count,
            count == rev@.len(),
            forall|k: int| 0 <= k < rev@.len() ==> rev@[k] < 10,
            dec_digits(n as int) =~= rev_digit_chars(rev@),
            out@ =~= rev_digit_chars(rev@).subrange(0, i as int),
        decreases count - i,
    {
        let d: u8 = rev[count - 1 - i];
        append_digit(&mut out, d);
        proof {
            assert(rev_digit_chars(rev@)[i as int] == hex_digit(d as int));
            assert(rev_digit_chars(rev@).subrange(0, i as int + 1) =~= rev_digit_chars(
                rev@,
            ).subrange(0, i as int).push(hex_digit(d as int)));
            assert(out@ =~= rev_digit_chars(rev@).subrange(0, i as int + 1));
        }
        i = i + 1;
    }
    proof {
        assert(rev_digit_chars(rev@).subrange(0, count as int) =~= rev_digit_chars(rev@));
    }
    out
}

/// Renders a signed integer in decimal.
pub fn render_i64(n: i64) -> (r: String)
    ensures
        r@ == dec_int(n as int),
{
    if n >= 0 {
        render_u64(n as u64)
    } else {
        let mut out = String::new();
        proof { reveal_strlit("-"); }
        out.append("-");
        let mag: u64 = ((-(n + 1)) as u64) + 1;
        proof {
            assert(mag as int == -(n as int));
        }
        let digits = render_u64(mag);
        out.append(digits.as_str());
        proof {
            assert("-"@ =~= seq!['-']);
            assert(out@ =~= seq!['-'] + dec_digits(-(n as int)));
        }
        out
    }
}

/// Appends the contents of `s` in JSON escaped form.
fn append_escaped(out: &mut String, s: &str)
    ensures
        final(out)@ == old(out)@ + json_escaped(s@),
{
    let n: usize = s.unicode_len();
    let mut i: usize = 0;
    while i < n
        invariant
            i <= n,
            n == s@.len(),
            out@ =~= old(out)@ + json_escaped(s@.subrange(0, i as int)),
        decreases n - i,
    {
        let c: char = s.get_char(i);
        if c == '"' {
            proof { reveal_strlit("\\\""); }
            out.append("\\\"");
        } else if c == '\\' {
            proof { reveal_strlit("\\\\"); }
            out.append("\\\\");
        } else if c == '\u{8}' {
            proof { reveal_strlit("\\b"); }
            out.append("\\b");
        } else if c == '\u{9}' {
            proof { reveal_strlit("\\t"); }
            out.append("\\t");
        } else if c == '\u{A}' {
            proof { reveal_strlit("\\n"); }
            out.append("\\n");
        } else if c == '\u{C}' {
            proof { reveal_strlit("\\f"); }
            out.append("\\f");
        } else if c == '\u{D}' {
            proof { reveal_strlit("\\r"); }
            out.append("\\r");
        } else if (c as u32) < 0x20 {
            proof { reveal_strlit("\\u00"); }
            out.append("\\u00");
            let v: u32 = c as u32;
            append_digit(out, (v / 16) as u8);
            append_digit(out, (v % 16) as u8);
        } else {
            let piece = s.substring_char(i, i + 1);
            out.append(piece);
            proof {
                assert(piece@ =~= seq![c]);
            }
        }
        proof {
            let t = s@.subrange(0, i as int + 1);
            assert(t.drop_last() =~= s@.subrange(0, i as int));
            assert(t.last() == c);
            assert(json_escaped(t) == json_escaped(s@.subrange(0, i as int)) + escaped_char(c));
            assert(out@ =~= old(out)@ + json_escaped(t));
        }
        i = i + 1;
    }
    proof {
        assert(s@.subrange(0, n as int) =~= s@);
    }
}

/// Appends a complete JSON string token holding the contents of `s`.
pub fn append_json_string(out: &mut String, s: &str)
    ensures
        final(out)@ == old(out)@ + json_string(s@),
{
    proof { reveal_strlit("\""); }
    out.append("\"");
    append_escaped(out, s);
    out.append("\"");
    proof {
        assert("\""@ =~= seq!['"']);
        assert(out@ =~= old(out)@ + (seq!['"'] + json_escaped(s@) + seq!['"']));
    }
}

/// Renders the contents of `s` in JSON escaped form, without quotes.
pub fn escape_json(s: &str) -> (r: String)
    ensures
        r@ == json_escaped(s@),
{
    let mut out = String::new();
    append_escaped(&mut out, s);
    out
}

} // verus!
