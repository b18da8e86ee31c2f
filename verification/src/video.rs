//! Recognizing video inputs by their file extension. Decoding videos is
//! a collaborator's job; the library only answers whether a path looks
//! like one, so the loader knows which decoder to try.

use vstd::prelude::*;

use crate::config::matches_any;
use crate::text::{ascii_lowercase, lower_seq};

verus! {

/// The index of the last occurrence of `c` in `s`, or minus one.
pub open spec fn spec_last_index_of(s: Seq<char>, c: char) -> int
    decreases s.len(),
{
    if s.len() == 0 {
        -1
    } else if s[s.len() - 1] == c {
        s.len() - 1
    } else {
        spec_last_index_of(s.drop_last(), c)
    }
}

/// The final path component: everything after the last slash.
pub open spec fn spec_file_name(path: Seq<char>) -> Seq<char> {
    path.subrange(spec_last_index_of(path, '/') + 1, path.len() as int)
}

/// The extension of the final path component: everything after its last
/// dot, or nothing when there is no dot or the name starts with its only
/// dot.
pub open spec fn spec_extension(path: Seq<char>) -> Option<Seq<char>> {
    let name = spec_file_name(path);
    let dot = spec_last_index_of(name, '.');
    if dot <= 0 {
        None
    } else {
        Some(name.subrange(dot + 1, name.len() as int))
    }
}

/// Whether a lowered extension names a video container format.
pub open spec fn spec_video_extension(ext: Seq<char>) -> bool {
    ||| ext == "mp4"@
    ||| ext == "mkv"@
    ||| ext == "mov"@
    ||| ext == "avi"@
    ||| ext == "webm"@
    ||| ext == "mpg"@
    ||| ext == "mpeg"@
    ||| ext == "gifv"@
    ||| ext == "flv"@
}

/// Whether a path looks like a video input.
pub open spec fn spec_is_video_candidate(path: Seq<char>) -> bool {
    match spec_extension(path) {
        Some(ext) => spec_video_extension(lower_seq(ext)),
        None => false,
    }
}

/// The index of the last occurrence of `c` in `s`, if any.
fn last_index_of(s: &str, c: char) -> (r: Option<usize>)
    ensures
        r is Some <==> spec_last_index_of(s@, c) >= 0,
        r is Some ==> r->0 == spec_last_index_of(s@, c) && r->0 < s@.len(),
        r is None ==> spec_last_index_of(s@, c) == -1,
{
    let n = s.unicode_len();
    let mut i: usize = n;
    proof {
        assert(s@.subrange(0, n as int) =~= s@);
    }
    while i > 0
        invariant
            i <= n,
            n == s@.len(),
            spec_last_index_of(s@, c) == spec_last_index_of(s@.subrange(0, i as int), c),
        decreases i,
    {
        proof {
            assert(s@.subrange(0, i as int).drop_last() =~= s@.subrange(0, i as int - 1));
            assert(s@.subrange(0, i as int).last() == s@[i as int - 1]);
        }
        if s.get_char(i - 1) == c {
            return Some(i - 1);
        }
        i = i - 1;
    }
    proof {
        assert(s@.subrange(0, 0) =~= Seq::<char>::empty());
    }
    None
}

/// Decides whether a path should be handed to the video decoder at all.
#[derive(Debug)]
pub struct VideoLoader;

impl VideoLoader {
    /// Whether the path's extension names a known video container
    /// (matched case-insensitively).
    pub fn is_video_candidate(path: &str) -> (r: bool)
        ensures
            r == spec_is_video_candidate(path@),
    {
        let n = path.unicode_len();
        let start = match last_index_of(path, '/') {
            Some(slash) => slash + 1,
            None => 0,
        };
        proof {
            lemma_last_index_in_tail(path@, '/');
        }
        let name = path.substring_char(start, n);
        let name_len = name.unicode_len();
        let dot = match last_index_of(name, '.') {
            Some(dot) => dot,
            None => {
                return false;
            },
        };
        if dot == 0 {
            return false;
        }
        let ext = name.substring_char(dot + 1, name_len);
        let lowered = ascii_lowercase(ext);
        matches_any(&lowered, "mp4", "mkv", "mov") || matches_any(&lowered, "avi", "webm", "mpg")
            || matches_any(&lowered, "mpeg", "gifv", "flv")
    }
}

/// The last occurrence of a character is inside the sequence.
proof fn lemma_last_index_in_tail(s: Seq<char>, c: char)
    ensures
        -1 <= spec_last_index_of(s, c) < s.len(),
    decreases s.len(),
{
    if s.len() > 0 && s[s.len() - 1] != c {
        lemma_last_index_in_tail(s.drop_last(), c);
    }
}

} // verus!
