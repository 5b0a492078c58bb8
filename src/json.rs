//! The small JSON subset in which token claims are written: quoted strings
//! with a fixed set of escapes, and unsigned decimal integers.

use vstd::prelude::*;
use crate::text::push_char;

verus! {

/// Lower-case hexadecimal digit for `n < 16`.
pub open spec fn hex_digit(n: u32) -> char {
    if n < 10 {
        ('0' as u32 + n) as char
    } else {
        ('a' as u32 + n - 10) as char
    }
}

/// Value of a lower-case hexadecimal digit.
pub open spec fn hex_value(c: char) -> Option<u32> {
    if '0' <= c && c <= '9' {
        Some((c as u32 - '0' as u32) as u32)
    } else if 'a' <= c && c <= 'f' {
        Some((c as u32 - 'a' as u32 + 10) as u32)
    } else {
        None
    }
}

/// How one character is written inside a quoted string.
pub open spec fn escape_char(c: char) -> Seq<char> {
    if c == '"' {
        seq!['\\', '"']
    } else if c == '\\' {
        seq!['\\', '\\']
    } else if (c as u32) < 32 {
        seq!['\\', 'u', '0', '0', hex_digit((c as u32) / 16), hex_digit((c as u32) % 16)]
    } else {
        seq![c]
    }
}

/// The escaped form of a whole string (without the quotes).
pub open spec fn escaped(s: Seq<char>) -> Seq<char>
    decreases s.len(),
{
    if s.len() == 0 {
        Seq::empty()
    } else {
        escape_char(s[0]) + escaped(s.drop_first())
    }
}

/// A string written as a JSON string literal.
pub open spec fn quoted(s: Seq<char>) -> Seq<char> {
    seq!['"'] + escaped(s) + seq!['"']
}

pub open spec fn prepend(c: char, r: Option<(Seq<char>, int)>) -> Option<(Seq<char>, int)> {
    match r {
        Some((t, k)) => Some((seq![c] + t, k)),
        None => None,
    }
}

/// Whether `s[i..i + 6]` is a `\u00XY` escape of a control character.
pub open spec fn is_control_escape(s: Seq<char>, i: int) -> bool {
    &&& 0 <= i
    &&& i + 6 <= s.len()
    &&& s[i] == '\\'
    &&& s[i + 1] == 'u'
    &&& s[i + 2] == '0'
    &&& s[i + 3] == '0'
    &&& (s[i + 4] == '0' || s[i + 4] == '1')
    &&& hex_value(s[i + 5]) is Some
}

/// The control character that the escape at `i` stands for.
pub open spec fn control_escape_char(s: Seq<char>, i: int) -> char {
    (16 * hex_value(s[i + 4])->0 + hex_value(s[i + 5])->0) as char
}

/// Reads the body of a string literal from position `i` (just after the
/// opening quote) up to and including the closing quote: the unescaped
/// characters and the position after the closing quote.
pub open spec fn str_body(s: Seq<char>, i: int) -> Option<(Seq<char>, int)>
    decreases s.len() - i,
{
    if i < 0 || i >= s.len() {
        None
    } else if s[i] == '"' {
        Some((Seq::empty(), i + 1))
    } else if s[i] == '\\' {
        if i + 1 < s.len() && (s[i + 1] == '"' || s[i + 1] == '\\') {
            prepend(s[i + 1], str_body(s, i + 2))
        } else if is_control_escape(s, i) {
            prepend(control_escape_char(s, i), str_body(s, i + 6))
        } else {
            None
        }
    } else if (s[i] as u32) < 32 {
        None
    } else {
        prepend(s[i], str_body(s, i + 1))
    }
}

/// Reads a string literal that starts at `i`.
pub open spec fn str_at(s: Seq<char>, i: int) -> Option<(Seq<char>, int)> {
    if 0 <= i < s.len() && s[i] == '"' {
        str_body(s, i + 1)
    } else {
        None
    }
}

proof fn lemma_hex_digit(n: u32)
    requires
        n < 16,
    ensures
        hex_value(hex_digit(n)) == Some(n),
{
}

proof fn lemma_control_escape(s: Seq<char>, i: int, c: char)
    requires
        (c as u32) < 32,
        c != '"',
        c != '\\',
        0 <= i,
        i + 6 <= s.len(),
        s.subrange(i, i + 6) == escape_char(c),
    ensures
        is_control_escape(s, i),
        control_escape_char(s, i) == c,
        !(s[i + 1] == '"' || s[i + 1] == '\\'),
{
    let e = escape_char(c);
    assert(s[i] == e[0] && s[i + 1] == e[1] && s[i + 2] == e[2]);
    assert(s[i + 3] == e[3] && s[i + 4] == e[4] && s[i + 5] == e[5]);
    lemma_hex_digit((c as u32) / 16);
    lemma_hex_digit((c as u32) % 16);
}

/// Reading back an escaped string, followed by a closing quote, gives the
/// string and the position after the quote, whatever follows.
pub proof fn lemma_str_body_escaped(s: Seq<char>, i: int, v: Seq<char>)
    requires
        0 <= i,
        i + escaped(v).len() + 1 <= s.len(),
        s.subrange(i, i + escaped(v).len() + 1) == escaped(v).push('"'),
    ensures
        str_body(s, i) == Some((v, i + escaped(v).len() + 1)),
    decreases v.len(),
{
    if v.len() == 0 {
        assert(s[i] == escaped(v).push('"')[0]);
    } else {
        let c = v[0];
        let e = escape_char(c);
        let rest = v.drop_first();
        assert(escaped(v) == e + escaped(rest));
        let n = e.len() as int;
        assert(s.subrange(i, i + n) == e) by {
            assert(s.subrange(i, i + n) == s.subrange(i, i + escaped(v).len() + 1).subrange(0, n));
        }
        assert(s.subrange(i + n, i + n + escaped(rest).len() + 1) == escaped(rest).push('"')) by {
            assert(s.subrange(i + n, i + n + escaped(rest).len() + 1) == s.subrange(
                i,
                i + escaped(v).len() + 1,
            ).subrange(n, n + escaped(rest).len() + 1));
        }
        lemma_str_body_escaped(s, i + n, rest);
        assert(s[i] == e[0]);
        if c == '"' || c == '\\' {
            assert(s[i + 1] == e[1]);
        } else if (c as u32) < 32 {
            lemma_control_escape(s, i, c);
        } else {
        }
        assert(seq![c] + rest == v);
    }
}

/// A quoted string reads back as itself.
pub proof fn lemma_str_at_quoted(s: Seq<char>, i: int, v: Seq<char>)
    requires
        0 <= i,
        i + quoted(v).len() <= s.len(),
        s.subrange(i, i + quoted(v).len()) == quoted(v),
    ensures
        str_at(s, i) == Some((v, i + quoted(v).len())),
{
    assert(s[i] == quoted(v)[0]);
    assert(s.subrange(i + 1, i + 1 + escaped(v).len() + 1) == escaped(v).push('"')) by {
        assert(s.subrange(i + 1, i + 1 + escaped(v).len() + 1) == s.subrange(
            i,
            i + quoted(v).len(),
        ).subrange(1, quoted(v).len() as int));
    }
    lemma_str_body_escaped(s, i + 1, v);
}

/// Writes `s` as a string literal at the end of `out`.
pub fn write_quoted(out: &mut String, s: &str)
    ensures
        final(out)@ == old(out)@ + quoted(s@),
{
    let cs = crate::text::chars_of(s);
    push_char(out, '"');
    let ghost start = out@;
    let mut i: usize = 0;
    while i < cs.len()
        invariant
            i <= cs.len(),
            start == old(out)@.push('"'),
            out@ == start + escaped(cs@.take(i as int)),
        decreases cs.len() - i,
    {
        let c = cs[i];
        proof {
            lemma_escaped_push(cs@.take(i as int), c);
            assert(cs@.take(i as int).push(c) == cs@.take(i + 1));
        }
        if c == '"' {
            push_char(out, '\\');
            push_char(out, '"');
        } else if c == '\\' {
            push_char(out, '\\');
            push_char(out, '\\');
        } else if (c as u32) < 32 {
            let code = c as u32;
            push_char(out, '\\');
            push_char(out, 'u');
            push_char(out, '0');
            push_char(out, '0');
            push_char(out, hex_char(code / 16));
            push_char(out, hex_char(code % 16));
        } else {
            push_char(out, c);
        }
        assert(out@ == start + escaped(cs@.take(i as int)) + escape_char(c));
        i = i + 1;
    }
    assert(cs@.take(cs.len() as int) == s@);
    push_char(out, '"');
}

fn hex_char(n: u32) -> (c: char)
    requires
        n < 16,
    ensures
        c == hex_digit(n),
{
    if n < 10 {
        ((48 + n) as u8) as char
    } else {
        ((87 + n) as u8) as char
    }
}

proof fn lemma_escaped_push(s: Seq<char>, c: char)
    ensures
        escaped(s.push(c)) == escaped(s) + escape_char(c),
    decreases s.len(),
{
    if s.len() == 0 {
        assert(s.push(c).drop_first() == s);
        assert(escaped(s) == Seq::<char>::empty());
    } else {
        assert(s.push(c).drop_first() == s.drop_first().push(c));
        lemma_escaped_push(s.drop_first(), c);
    }
}

/// Reads a string literal that starts at `i`.
pub fn read_str(s: &Vec<char>, i: usize) -> (r: Option<(Vec<char>, usize)>)
    ensures
        r is None <==> str_at(s@, i as int) is None,
        r matches Some((v, j)) ==> str_at(s@, i as int) == Some((v@, j as int)),
{
    if i >= s.len() || s[i] != '"' {
        return None;
    }
    let mut out: Vec<char> = Vec::new();
    let mut j: usize = i + 1;
    while j < s.len()
        invariant
            i < j <= s.len(),
            s[i as int] == '"',
            str_at(s@, i as int) == match str_body(s@, j as int) {
                Some((t, k)) => Some((out@ + t, k)),
                None => None,
            },
        decreases s.len() - j,
    {
        let c = s[j];
        if c == '"' {
            assert(out@ + Seq::<char>::empty() == out@);
            return Some((out, j + 1));
        } else if c == '\\' {
            if j + 1 < s.len() && (s[j + 1] == '"' || s[j + 1] == '\\') {
                let e = s[j + 1];
                proof {
                    assert(forall|t: Seq<char>| out@.push(e) + t == out@ + (seq![e] + t));
                }
                out.push(e);
                j = j + 2;
            } else if s.len() - j >= 6 && s[j + 1] == 'u' && s[j + 2] == '0' && s[j + 3] == '0'
                && (s[j + 4] == '0' || s[j + 4] == '1') && is_hex(s[j + 5]) {
                let hi: u32 = if s[j + 4] == '0' { 0 } else { 1 };
                let lo = hex_val(s[j + 5]);
                let e = ((16 * hi + lo) as u8) as char;
                assert(e == control_escape_char(s@, j as int));
                proof {
                    assert(forall|t: Seq<char>| out@.push(e) + t == out@ + (seq![e] + t));
                }
                out.push(e);
                j = j + 6;
            } else {
                return None;
            }
        } else if (c as u32) < 32 {
            return None;
        } else {
            proof {
                assert(forall|t: Seq<char>| out@.push(c) + t == out@ + (seq![c] + t));
            }
            out.push(c);
            j = j + 1;
        }
    }
    None
}

fn is_hex(c: char) -> (r: bool)
    ensures
        r == hex_value(c) is Some,
{
    ('0' <= c && c <= '9') || ('a' <= c && c <= 'f')
}

fn hex_val(c: char) -> (r: u32)
    requires
        hex_value(c) is Some,
    ensures
        r == hex_value(c)->0,
        r < 16,
{
    if '0' <= c && c <= '9' {
        c as u32 - 48
    } else {
        c as u32 - 87
    }
}

pub open spec fn is_digit(c: char) -> bool {
    '0' <= c && c <= '9'
}

pub open spec fn digit_value(c: char) -> nat {
    (c as u32 - '0' as u32) as nat
}

pub open spec fn digit_char(d: nat) -> char {
    (48 + d) as u32 as char
}

/// The decimal digits of `n`, without leading zeros.
pub open spec fn decimal(n: nat) -> Seq<char>
    decreases n,
{
    if n < 10 {
        seq![digit_char(n)]
    } else {
        decimal(n / 10).push(digit_char(n % 10))
    }
}

/// The position of the first character at or after `i` that is not a digit.
pub open spec fn digits_end(s: Seq<char>, i: int) -> int
    decreases s.len() - i,
{
    if 0 <= i < s.len() && is_digit(s[i]) {
        digits_end(s, i + 1)
    } else {
        i
    }
}

/// The number that the digits `s[i..j]` spell.
pub open spec fn digits_value(s: Seq<char>, i: int, j: int) -> nat
    decreases j - i,
{
    if j <= i {
        0
    } else {
        digits_value(s, i, j - 1) * 10 + digit_value(s[j - 1])
    }
}

/// Reads an unsigned integer that starts at `i` and fits in 64 bits.
pub open spec fn num_at(s: Seq<char>, i: int) -> Option<(nat, int)> {
    let j = digits_end(s, i);
    if j > i && digits_value(s, i, j) <= u64::MAX {
        Some((digits_value(s, i, j), j))
    } else {
        None
    }
}

/// Writes `n` in decimal at the end of `out`.
pub fn write_u64(out: &mut String, n: u64)
    ensures
        final(out)@ == old(out)@ + decimal(n as nat),
    decreases n,
{
    if n >= 10 {
        write_u64(out, n / 10);
    }
    push_char(out, ((48 + n % 10) as u8) as char);
    if n < 10 {
        assert(old(out)@.push(digit_char(n as nat)) == old(out)@ + decimal(n as nat));
    } else {
        assert(old(out)@ + decimal((n / 10) as nat) + seq![digit_char((n % 10) as nat)] == old(
            out,
        )@ + decimal(n as nat));
    }
}

proof fn lemma_digits_value_monotone(s: Seq<char>, i: int, k: int, j: int)
    requires
        i <= k <= j,
    ensures
        digits_value(s, i, k) <= digits_value(s, i, j),
    decreases j - k,
{
    if k < j {
        lemma_digits_value_monotone(s, i, k, j - 1);
    }
}

proof fn lemma_digits_end_step(s: Seq<char>, i: int, j: int)
    requires
        i <= j,
        digits_end(s, i) == digits_end(s, j),
        0 <= j < s.len(),
        is_digit(s[j]),
    ensures
        digits_end(s, i) == digits_end(s, j + 1),
{
}

/// Reads an unsigned integer that starts at `i` and fits in 64 bits.
pub fn read_u64(s: &Vec<char>, i: usize) -> (r: Option<(u64, usize)>)
    ensures
        r is None <==> num_at(s@, i as int) is None,
        r matches Some((v, j)) ==> num_at(s@, i as int) == Some((v as nat, j as int)),
{
    let mut j: usize = i;
    let mut acc: u64 = 0;
    if i > s.len() {
        return None;
    }
    while j < s.len() && '0' <= s[j] && s[j] <= '9'
        invariant
            i <= j <= s.len(),
            digits_end(s@, i as int) == digits_end(s@, j as int),
            acc as nat == digits_value(s@, i as int, j as int),
        decreases s.len() - j,
    {
        let d = (s[j] as u32 - 48) as u64;
        proof {
            lemma_digits_end_step(s@, i as int, j as int);
        }
        if acc > (u64::MAX - d) / 10 {
            proof {
                assert(digits_value(s@, i as int, j + 1) > u64::MAX) by (nonlinear_arith)
                    requires
                        digits_value(s@, i as int, j + 1) == acc * 10 + d,
                        acc > (u64::MAX - d) / 10,
                        d <= 9,
                ;
                let e = digits_end(s@, i as int);
                assert(j + 1 <= e) by {
                    assert(digits_end(s@, j + 1) >= j + 1) by {
                        lemma_digits_end_ge(s@, j + 1);
                    }
                }
                lemma_digits_value_monotone(s@, i as int, j + 1, e);
            }
            return None;
        }
        acc = acc * 10 + d;
        j = j + 1;
    }
    if j == i {
        None
    } else {
        Some((acc, j))
    }
}

proof fn lemma_digits_end_ge(s: Seq<char>, i: int)
    ensures
        digits_end(s, i) >= i,
    decreases s.len() - i,
{
    if 0 <= i < s.len() && is_digit(s[i]) {
        lemma_digits_end_ge(s, i + 1);
    }
}

proof fn lemma_decimal_digits(n: nat)
    ensures
        decimal(n).len() >= 1,
        forall|k: int| 0 <= k < decimal(n).len() ==> is_digit(#[trigger] decimal(n)[k]),
    decreases n,
{
    if n >= 10 {
        lemma_decimal_digits(n / 10);
    }
}

proof fn lemma_digits_end_run(s: Seq<char>, i: int, m: int)
    requires
        0 <= i <= m <= s.len(),
        forall|k: int| i <= k < m ==> is_digit(#[trigger] s[k]),
        m == s.len() || !is_digit(s[m]),
    ensures
        digits_end(s, i) == m,
    decreases m - i,
{
    if i < m {
        lemma_digits_end_run(s, i + 1, m);
    }
}

proof fn lemma_digits_value_decimal(s: Seq<char>, i: int, n: nat)
    requires
        0 <= i,
        i + decimal(n).len() <= s.len(),
        s.subrange(i, i + decimal(n).len()) == decimal(n),
    ensures
        digits_value(s, i, i + decimal(n).len()) == n,
    decreases n,
{
    let l = decimal(n).len() as int;
    if n < 10 {
        assert(s[i] == decimal(n)[0]);
        assert(digits_value(s, i, i) == 0);
    } else {
        let p = decimal(n / 10);
        assert(s.subrange(i, i + p.len()) == p) by {
            assert(s.subrange(i, i + p.len()) == s.subrange(i, i + l).subrange(0, p.len() as int));
        }
        lemma_digits_value_decimal(s, i, n / 10);
        assert(s[i + l - 1] == decimal(n)[l - 1]);
    }
}

/// A number written in decimal reads back as itself when no digit follows.
pub proof fn lemma_num_at_decimal(s: Seq<char>, i: int, n: nat)
    requires
        n <= u64::MAX,
        0 <= i,
        i + decimal(n).len() <= s.len(),
        s.subrange(i, i + decimal(n).len()) == decimal(n),
        i + decimal(n).len() == s.len() || !is_digit(s[i + decimal(n).len()]),
    ensures
        num_at(s, i) == Some((n, i + decimal(n).len())),
{
    let m = i + decimal(n).len();
    lemma_decimal_digits(n);
    assert forall|k: int| i <= k < m implies is_digit(#[trigger] s[k]) by {
        assert(s[k] == decimal(n)[k - i]);
    }
    lemma_digits_end_run(s, i, m);
    lemma_digits_value_decimal(s, i, n);
}

} // verus!
