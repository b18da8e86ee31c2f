//! Multiplexer passthrough wrapping.
//!
//! Inside tmux or screen, graphics escape sequences must be tunneled
//! through a device-control-string passthrough: the sequence is prefixed
//! with the passthrough opener, every interior escape byte is doubled so
//! the multiplexer does not end the passthrough early, and a string
//! terminator is appended. Detecting multiplexer presence is the caller's
//! business; these functions only transform sequences.

use vstd::prelude::*;

use crate::text::push_char;

verus! {

/// A sequence with every escape character doubled.
pub open spec fn escaped_seq(s: Seq<char>) -> Seq<char>
    decreases s.len(),
{
    if s.len() == 0 {
        s
    } else {
        let head = if s[0] == '\u{1b}' { seq!['\u{1b}', '\u{1b}'] } else { seq![s[0]] };
        head + escaped_seq(s.drop_first())
    }
}

/// The passthrough form: opener, escaped body, string terminator.
pub open spec fn tmux_wrapped(s: Seq<char>) -> Seq<char> {
    "\u{1b}Ptmux;"@ + escaped_seq(s) + "\u{1b}\\"@
}

proof fn lemma_escaped_push(s: Seq<char>, c: char)
    ensures
        escaped_seq(s.push(c)) == escaped_seq(s)
            + (if c == '\u{1b}' { seq!['\u{1b}', '\u{1b}'] } else { seq![c] }),
    decreases s.len(),
{
    let tail = if c == '\u{1b}' { seq!['\u{1b}', '\u{1b}'] } else { seq![c] };
    if s.len() == 0 {
        let t = s.push(c);
        assert(t[0] == c);
        assert(t.drop_first() =~= Seq::<char>::empty());
        assert(escaped_seq(t.drop_first()) =~= Seq::<char>::empty());
        assert(escaped_seq(t) =~= tail + escaped_seq(t.drop_first()));
        assert(escaped_seq(t) =~= tail);
        assert(escaped_seq(s) =~= Seq::<char>::empty());
        assert(escaped_seq(s.push(c)) =~= escaped_seq(s) + tail);
    } else {
        assert(s.push(c).drop_first() =~= s.drop_first().push(c));
        lemma_escaped_push(s.drop_first(), c);
        assert(escaped_seq(s.push(c)) =~= escaped_seq(s) + tail);
    }
}

/// Wraps an escape sequence for tmux passthrough: `ESC P tmux ;` before,
/// `ESC \` after, and every escape character of the body doubled.
pub fn wrap_for_tmux(sequence: &str) -> (r: String)
    ensures
        r@ == tmux_wrapped(sequence@),
{
    let mut result = String::from_str("\u{1b}Ptmux;");
    let n = sequence.unicode_len();
    let mut i: usize = 0;
    while i < n
        invariant
            i <= n,
            n == sequence@.len(),
            result@ == "\u{1b}Ptmux;"@ + escaped_seq(sequence@.subrange(0, i as int)),
        decreases n - i,
    {
        let c = sequence.get_char(i);
        proof {
            assert(sequence@.subrange(0, i + 1) =~= sequence@.subrange(0, i as int).push(c));
            lemma_escaped_push(sequence@.subrange(0, i as int), c);
        }
        if c == '\u{1b}' {
            push_char(&mut result, '\u{1b}');
            push_char(&mut result, '\u{1b}');
        } else {
            push_char(&mut result, c);
        }
        proof {
            assert(result@ =~= "\u{1b}Ptmux;"@ + escaped_seq(sequence@.subrange(0, i + 1)));
        }
        i = i + 1;
    }
    proof {
        assert(sequence@.subrange(0, n as int) =~= sequence@);
    }
    result.append("\u{1b}\\");
    result
}

/// Wraps an escape sequence for screen passthrough; screen uses the same
/// device-control-string format as tmux.
pub fn wrap_for_screen(sequence: &str) -> (r: String)
    ensures
        r@ == tmux_wrapped(sequence@),
{
    wrap_for_tmux(sequence)
}

/// Wraps a sequence only when a multiplexer is present; detecting one is
/// the caller's business and arrives as a plain flag.
pub fn wrap_if_needed(sequence: &str, in_multiplexer: bool) -> (r: String)
    ensures
        r@ == if in_multiplexer { tmux_wrapped(sequence@) } else { sequence@ },
{
    if in_multiplexer {
        wrap_for_tmux(sequence)
    } else {
        String::from_str(sequence)
    }
}

} // verus!
