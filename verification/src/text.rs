//! Small text-building helpers: appending characters and decimal numbers
//! to strings, with exact character-sequence specifications.

use vstd::prelude::*;

verus! {

/// The character for a single decimal digit.
pub open spec fn spec_digit(d: int) -> char {
    (48 + d) as char
}

/// The decimal representation of a non-negative number, most significant
/// digit first, with no leading zeros (a lone zero for zero itself).
pub open spec fn dec_str(n: nat) -> Seq<char>
    decreases n,
{
    if n < 10 {
        seq![spec_digit(n as int)]
    } else {
        dec_str(n / 10).push(spec_digit((n % 10) as int))
    }
}

/// Relies on `String::push` from std: appends exactly the one character.
#[verifier::external_body]
pub fn push_char(s: &mut String, c: char)
    ensures
        final(s)@ == old(s)@ + seq![c],
{
    s.push(c);
}

/// The character for a single decimal digit.
pub fn digit_char(d: u8) -> (c: char)
    requires
        d < 10,
    ensures
        c == spec_digit(d as int),
{
    (48 + d) as char
}

/// The decimal representation of a number as a string.
pub fn u64_string(n: u64) -> (s: String)
    ensures
        s@ == dec_str(n as nat),
    decreases n,
{
    if n < 10 {
        let mut s = String::new();
        push_char(&mut s, digit_char(n as u8));
        assert(s@ =~= dec_str(n as nat));
        s
    } else {
        let mut s = u64_string(n / 10);
        push_char(&mut s, digit_char((n % 10) as u8));
        assert(s@ =~= dec_str(n as nat));
        s
    }
}

/// Appends the decimal representation of a number to a string.
pub fn push_u64(s: &mut String, n: u64)
    ensures
        final(s)@ == old(s)@ + dec_str(n as nat),
{
    let t = u64_string(n);
    s.append(t.as_str());
}

/// The decimal representation of a signed number: a minus sign for
/// negative values, then the digits of the magnitude.
pub open spec fn int_str(n: int) -> Seq<char> {
    if n < 0 {
        seq!['-'] + dec_str((-n) as nat)
    } else {
        dec_str(n as nat)
    }
}

/// An ASCII letter lowered; every other character unchanged.
pub open spec fn lower_char(c: char) -> char {
    if 'A' <= c && c <= 'Z' { ((c as u8) + 32) as char } else { c }
}

/// A character sequence with its ASCII letters lowered.
pub open spec fn lower_seq(s: Seq<char>) -> Seq<char> {
    Seq::new(s.len(), |i: int| lower_char(s[i]))
}

/// Lowers one ASCII letter.
pub fn to_lower_char(c: char) -> (r: char)
    ensures
        r == lower_char(c),
{
    if c >= 'A' && c <= 'Z' {
        ((c as u8) + 32) as char
    } else {
        c
    }
}

/// The string with its ASCII letters lowered; other characters are kept.
pub fn ascii_lowercase(s: &str) -> (r: String)
    ensures
        r@ == lower_seq(s@),
{
    let n = s.unicode_len();
    let mut out = String::new();
    let mut i: usize = 0;
    while i < n
        invariant
            i <= n,
            n == s@.len(),
            out@ == lower_seq(s@.subrange(0, i as int)),
        decreases n - i,
    {
        let c = s.get_char(i);
        push_char(&mut out, to_lower_char(c));
        proof {
            assert(out@ =~= lower_seq(s@.subrange(0, i + 1)));
        }
        i = i + 1;
    }
    proof {
        assert(out@ =~= lower_seq(s@));
    }
    out
}

/// Appends the decimal representation of a signed number to a string.
pub fn push_i64(s: &mut String, n: i64)
    ensures
        final(s)@ == old(s)@ + int_str(n as int),
{
    if n < 0 {
        push_char(s, '-');
        let magnitude: u64 = ((-(n as i128)) as u64);
        push_u64(s, magnitude);
        proof {
            assert((*s)@ =~= old(s)@ + int_str(n as int));
        }
    } else {
        push_u64(s, n as u64);
    }
}

} // verus!
