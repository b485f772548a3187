//! Text rendering: exact decimal formatting of timestamps, and the quoting
//! discipline that keeps untrusted symbol text from altering query structure.

use vstd::prelude::*;
use vstd::assert_seqs_equal;
use vstd::string::StrSliceExecFns;

verus! {

/// Relies on `String::push`: appends the given character to the end of the
/// string.
#[verifier::external_body]
fn push_char(s: &mut String, c: char)
    ensures
        final(s)@ == old(s)@.push(c),
{
    s.push(c);
}

/// The decimal digit character for one digit value.
pub open spec fn dec_digit(d: int) -> char
    recommends
        0 <= d < 10,
{
    ((48 + d) as u8) as char
}

/// The decimal representation of a non-negative integer, most significant
/// digit first, with no sign and no leading zeros (zero itself is "0").
pub open spec fn dec_rep(n: int) -> Seq<char>
    recommends
        n >= 0,
    decreases n,
{
    if n < 10 {
        seq![dec_digit(n)]
    } else {
        dec_rep(n / 10).push(dec_digit(n % 10))
    }
}

/// The decimal representation of any integer: a leading '-' for negatives.
pub open spec fn dec_int(t: int) -> Seq<char> {
    if t >= 0 {
        dec_rep(t)
    } else {
        seq!['-'] + dec_rep(-t)
    }
}

fn dec_digit_char(d: u64) -> (c: char)
    requires
        d < 10,
    ensures
        c == dec_digit(d as int),
{
    let b: u8 = 48 + (d as u8);
    b as char
}

/// Appends the decimal representation of `n` to `out`.
pub fn push_dec_u64(out: &mut String, n: u64)
    ensures
        final(out)@ == old(out)@ + dec_rep(n as int),
    decreases n,
{
    if n < 10 {
        push_char(out, dec_digit_char(n));
        proof {
            assert_seqs_equal!(old(out)@.push(dec_digit(n as int)), old(out)@ + dec_rep(n as int));
        }
    } else {
        push_dec_u64(out, n / 10);
        push_char(out, dec_digit_char(n % 10));
        proof {
            assert_seqs_equal!(
                (old(out)@ + dec_rep(n as int / 10)).push(dec_digit(n as int % 10)),
                old(out)@ + dec_rep(n as int)
            );
        }
    }
}

/// Appends the decimal representation of `t` to `out`, sign included.
pub fn push_dec_i64(out: &mut String, t: i64)
    ensures
        final(out)@ == old(out)@ + dec_int(t as int),
{
    if t >= 0 {
        push_dec_u64(out, t as u64);
    } else {
        push_char(out, '-');
        let m1: i64 = -(t + 1);
        let mag: u64 = (m1 as u64) + 1;
        assert(mag as int == -(t as int));
        push_dec_u64(out, mag);
        proof {
            assert_seqs_equal!(
                old(out)@.push('-') + dec_rep(mag as int),
                old(out)@ + dec_int(t as int)
            );
        }
    }
}

/// The decimal text of a signed 64-bit integer.
pub fn i64_to_decimal(t: i64) -> (s: String)
    ensures
        s@ == dec_int(t as int),
{
    let mut s = String::new();
    push_dec_i64(&mut s, t);
    proof {
        assert_seqs_equal!(Seq::<char>::empty() + dec_int(t as int), dec_int(t as int));
    }
    s
}

/// How one character is embedded in a literal delimited by `quote`: the
/// delimiter and the backslash are preceded by a backslash, everything else
/// stands as itself.
pub open spec fn escaped_char(c: char, quote: char) -> Seq<char> {
    if c == quote || c == '\\' {
        seq!['\\', c]
    } else {
        seq![c]
    }
}

/// The escaped form of a whole string.
pub open spec fn escaped(s: Seq<char>, quote: char) -> Seq<char>
    decreases s.len(),
{
    if s.len() == 0 {
        Seq::empty()
    } else {
        escaped_char(s[0], quote) + escaped(s.skip(1), quote)
    }
}

proof fn lemma_escaped_push(s: Seq<char>, c: char, quote: char)
    ensures
        escaped(s.push(c), quote) == escaped(s, quote) + escaped_char(c, quote),
    decreases s.len(),
{
    if s.len() == 0 {
        assert_seqs_equal!(s.push(c).skip(1), s);
        assert(s.push(c)[0] == c);
        assert(escaped(s.push(c), quote) == escaped_char(c, quote) + escaped(s, quote));
        assert(escaped(s, quote) == Seq::<char>::empty());
        assert_seqs_equal!(
            escaped_char(c, quote) + Seq::<char>::empty(),
            Seq::<char>::empty() + escaped_char(c, quote)
        );
    } else {
        assert_seqs_equal!(s.push(c).skip(1), s.skip(1).push(c));
        lemma_escaped_push(s.skip(1), c, quote);
        assert(s.push(c)[0] == s[0]);
        assert(escaped(s.push(c), quote) == escaped_char(s[0], quote) + escaped(
            s.skip(1).push(c),
            quote,
        ));
        assert(escaped(s.skip(1).push(c), quote) == escaped(s.skip(1), quote) + escaped_char(
            c,
            quote,
        ));
        assert_seqs_equal!(
            escaped_char(s[0], quote) + (escaped(s.skip(1), quote) + escaped_char(c, quote)),
            (escaped_char(s[0], quote) + escaped(s.skip(1), quote)) + escaped_char(c, quote)
        );
    }
}

/// Appends the escaped form of `s` to `out`, for a literal delimited by
/// `quote`.
pub fn push_escaped(out: &mut String, s: &str, quote: char)
    ensures
        final(out)@ == old(out)@ + escaped(s@, quote),
{
    let n = s.unicode_len();
    let ghost orig = out@;
    let mut i: usize = 0;
    while i < n
        invariant
            n == s@.len(),
            i <= n,
            out@ == orig + escaped(s@.take(i as int), quote),
        decreases n - i,
    {
        let c = s.get_char(i);
        let ghost pre = out@;
        if c == quote || c == '\\' {
            push_char(out, '\\');
        }
        push_char(out, c);
        proof {
            assert_seqs_equal!(out@, pre + escaped_char(c, quote));
            assert_seqs_equal!(s@.take(i as int).push(c), s@.take(i + 1 as int));
            lemma_escaped_push(s@.take(i as int), c, quote);
            assert_seqs_equal!(out@, orig + escaped(s@.take(i + 1 as int), quote));
        }
        i = i + 1;
    }
    proof {
        assert_seqs_equal!(s@.take(n as int), s@);
    }
}

/// The escaped form of `s` as a fresh string.
pub fn escape_text(s: &str, quote: char) -> (r: String)
    ensures
        r@ == escaped(s@, quote),
{
    let mut r = String::new();
    push_escaped(&mut r, s, quote);
    proof {
        assert_seqs_equal!(Seq::<char>::empty() + escaped(s@, quote), escaped(s@, quote));
    }
    r
}

/// A model of how the query language's lexer reads a quoted literal, from
/// just after the opening delimiter: a backslash takes the next character
/// literally, the bare delimiter ends the literal.  The result is the
/// decoded content together with the text after the closing delimiter, or
/// nothing when the literal never terminates.
pub open spec fn scan_quoted(s: Seq<char>, quote: char) -> Option<(Seq<char>, Seq<char>)>
    decreases s.len(),
{
    if s.len() == 0 {
        None
    } else if s[0] == quote {
        Some((Seq::empty(), s.skip(1)))
    } else if s[0] == '\\' {
        if s.len() == 1 {
            None
        } else {
            match scan_quoted(s.skip(2), quote) {
                Some(p) => Some((seq![s[1]] + p.0, p.1)),
                None => None,
            }
        }
    } else {
        match scan_quoted(s.skip(1), quote) {
            Some(p) => Some((seq![s[0]] + p.0, p.1)),
            None => None,
        }
    }
}

/// Injection-safety law: however hostile the embedded text, the lexer reads
/// the escaped form followed by the closing delimiter back as exactly that
/// text, and hands everything after the delimiter on untouched.  Quotes or
/// backslashes inside the text therefore filter literally and never alter
/// the structure of the surrounding query.
pub proof fn lemma_escaped_scans_back(s: Seq<char>, quote: char, rest: Seq<char>)
    requires
        quote != '\\',
    ensures
        scan_quoted(escaped(s, quote) + seq![quote] + rest, quote) == Some((s, rest)),
    decreases s.len(),
{
    let t = escaped(s, quote) + seq![quote] + rest;
    if s.len() == 0 {
        assert(t[0] == quote);
        assert_seqs_equal!(t.skip(1), rest);
        assert_seqs_equal!(s, Seq::<char>::empty());
    } else {
        let c = s[0];
        lemma_escaped_scans_back(s.skip(1), quote, rest);
        let t1 = escaped(s.skip(1), quote) + seq![quote] + rest;
        if c == quote || c == '\\' {
            assert_seqs_equal!(t, seq!['\\', c] + t1);
            assert(t[0] == '\\');
            assert(t.len() >= 2);
            assert(t[1] == c);
            assert_seqs_equal!(t.skip(2), t1);
            assert_seqs_equal!(seq![c] + s.skip(1), s);
        } else {
            assert_seqs_equal!(t, seq![c] + t1);
            assert(t[0] == c);
            assert_seqs_equal!(t.skip(1), t1);
            assert_seqs_equal!(seq![c] + s.skip(1), s);
        }
    }
}

} // verus!
