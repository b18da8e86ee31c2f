//! Splitting base64 payloads into protocol-sized chunks.
//!
//! A payload is base64-encoded once, then cut into pieces whose length is
//! a multiple of four, so every piece stays on a base64 quantum boundary.
//! An empty payload still yields exactly one (empty) chunk, so protocol
//! encoders always emit their mandatory first-chunk metadata frame.

use vstd::prelude::*;

use base64::Engine;
use vstd::arithmetic::div_mod::lemma_div_is_ordered;

verus! {

/// The base64 text (standard alphabet, padded) of a byte sequence.
pub uninterp spec fn base64_of(bytes: Seq<u8>) -> Seq<char>;

/// Relies on base64's `STANDARD` engine `encode`: standard alphabet with
/// padding, so the output holds exactly `4 * ceil(n / 3)` ASCII characters
/// and depends on the input bytes alone.
#[verifier::external_body]
fn base64_encode(data: &[u8]) -> (r: String)
    requires
        data@.len() <= usize::MAX as int / 8,
    ensures
        r@ == base64_of(data@),
        r@.len() == 4 * ((data@.len() + 2) / 3),
{
    base64::engine::general_purpose::STANDARD.encode(data)
}

/// A chunk size rounded up to the nearest multiple of four, at least four.
pub open spec fn spec_sanitize(size: int) -> int {
    let s = if size < 4 { 4int } else { size };
    if s % 4 == 0 { s } else { s + (4 - s % 4) }
}

/// Rounds a requested chunk size up to the nearest multiple of four,
/// with a floor of four.
pub fn sanitize_chunk_size(chunk_size: usize) -> (r: usize)
    requires
        chunk_size <= usize::MAX - 3,
    ensures
        r == spec_sanitize(chunk_size as int),
        r >= 4,
        r % 4 == 0,
        chunk_size <= r,
{
    let chunk_size = if chunk_size < 4 { 4 } else { chunk_size };
    let remainder = chunk_size % 4;
    if remainder == 0 {
        chunk_size
    } else {
        chunk_size + (4 - remainder)
    }
}

/// Sanitization is idempotent: applying it twice changes nothing more.
pub proof fn lemma_sanitize_idempotent(size: int)
    ensures
        spec_sanitize(spec_sanitize(size)) == spec_sanitize(size),
{
}

/// Sanitization is monotonically non-decreasing.
pub proof fn lemma_sanitize_monotone(a: int, b: int)
    requires
        a <= b,
    ensures
        spec_sanitize(a) <= spec_sanitize(b),
{
}

/// How many chunks an encoded text of length `len` yields at chunk size
/// `size`: at least one, even when the text is empty.
pub open spec fn spec_chunk_count(len: int, size: int) -> int {
    if len == 0 { 1int } else { (len + size - 1) / size }
}

/// Chunk `i` of an encoded text at chunk size `size`.
pub open spec fn spec_chunk(s: Seq<char>, size: int, i: int) -> Seq<char> {
    let end = if (i + 1) * size <= s.len() { (i + 1) * size } else { s.len() as int };
    s.subrange(i * size, end)
}

/// Base64-encoded data together with how it is cut into chunks.
pub struct Base64Chunks {
    encoded: String,
    chunk_size: usize,
    chunk_count: usize,
}

impl Base64Chunks {
    /// The encoded text.
    pub closed spec fn spec_encoded(&self) -> Seq<char> {
        self.encoded@
    }

    /// The sanitized chunk size.
    pub closed spec fn spec_chunk_size(&self) -> int {
        self.chunk_size as int
    }

    /// The chunk count and size match the encoded text, and everything is
    /// small enough for index arithmetic.
    pub closed spec fn wf(&self) -> bool {
        &&& self.chunk_size >= 4
        &&& self.chunk_size % 4 == 0
        &&& self.chunk_count == spec_chunk_count(self.encoded@.len() as int, self.chunk_size as int)
        &&& self.encoded@.len() <= usize::MAX as int / 2
        &&& self.chunk_size <= usize::MAX as int / 4
    }

    /// Encodes a payload and fixes the chunk geometry: the requested size
    /// is sanitized, and an empty payload still counts one chunk.
    pub fn new(data: &[u8], chunk_size: usize) -> (r: Self)
        requires
            data@.len() <= usize::MAX as int / 8,
            chunk_size <= usize::MAX as int / 8,
        ensures
            r.wf(),
            r.spec_encoded() == base64_of(data@),
            r.spec_encoded().len() == 4 * ((data@.len() + 2) / 3),
            r.spec_chunk_size() == spec_sanitize(chunk_size as int),
    {
        let chunk_size = sanitize_chunk_size(chunk_size);
        let encoded = base64_encode(data);
        let elen = encoded.as_str().unicode_len();
        proof {
            lemma_encoded_len_bound(data@.len() as int);
        }
        let chunk_count = if elen == 0 {
            1
        } else {
            (elen + chunk_size - 1) / chunk_size
        };
        Base64Chunks { encoded, chunk_size, chunk_count }
    }

    /// How many chunks there are; always at least one.
    pub fn len(&self) -> (r: usize)
        requires
            self.wf(),
        ensures
            r == spec_chunk_count(self.spec_encoded().len() as int, self.spec_chunk_size()),
            r >= 1,
    {
        proof {
            lemma_chunk_count_at_least_one(self.encoded@.len() as int, self.chunk_size as int);
        }
        self.chunk_count
    }

    /// The length of the whole encoded text.
    pub fn encoded_len(&self) -> (r: usize)
        ensures
            r == self.spec_encoded().len(),
    {
        self.encoded.as_str().unicode_len()
    }

    /// Chunk `i` of the encoded text: full chunks everywhere but possibly
    /// the last, and the single empty chunk of an empty text.
    pub fn chunk_at(&self, i: usize) -> (r: &str)
        requires
            self.wf(),
            i < spec_chunk_count(self.spec_encoded().len() as int, self.spec_chunk_size()),
        ensures
            r@ == spec_chunk(self.spec_encoded(), self.spec_chunk_size(), i as int),
    {
        let elen = self.encoded.as_str().unicode_len();
        proof {
            lemma_chunk_start_in_range(elen as int, self.chunk_size as int, i as int);
            assert((i as int) * (self.chunk_size as int) + self.chunk_size
                == (i as int + 1) * (self.chunk_size as int)) by (nonlinear_arith);
        }
        let start = i * self.chunk_size;
        let end = if start + self.chunk_size <= elen { start + self.chunk_size } else { elen };
        self.encoded.as_str().substring_char(start, end)
    }

    /// All chunks, in order.
    pub fn chunks(&self) -> (r: Vec<String>)
        requires
            self.wf(),
        ensures
            r@.len() == spec_chunk_count(self.spec_encoded().len() as int, self.spec_chunk_size()),
            forall|i: int| 0 <= i < r@.len()
                ==> #[trigger] r@[i]@ == spec_chunk(self.spec_encoded(), self.spec_chunk_size(), i),
    {
        let total = self.len();
        let mut out: Vec<String> = Vec::new();
        let mut i: usize = 0;
        while i < total
            invariant
                self.wf(),
                i <= total,
                total == spec_chunk_count(self.spec_encoded().len() as int, self.spec_chunk_size()),
                out@.len() == i,
                forall|j: int| 0 <= j < i
                    ==> #[trigger] out@[j]@
                        == spec_chunk(self.spec_encoded(), self.spec_chunk_size(), j),
            decreases total - i,
        {
            let piece = self.chunk_at(i);
            out.push(String::from_str(piece));
            i = i + 1;
        }
        out
    }
}

/// The average chunk length, rounded up; zero for an empty encoding.
pub fn average_chunk_len(chunks: &Base64Chunks) -> (r: usize)
    requires
        chunks.wf(),
    ensures
        chunks.spec_encoded().len() == 0 ==> r == 0,
        chunks.spec_encoded().len() > 0 ==> {
            let len = chunks.spec_encoded().len() as int;
            let count = spec_chunk_count(len, chunks.spec_chunk_size());
            r == (len + count - 1) / count
        },
{
    let len = chunks.encoded_len();
    if len == 0 {
        0
    } else {
        let count = chunks.len();
        proof {
            lemma_chunk_count_bounded(len as int, chunks.spec_chunk_size());
        }
        (len + count - 1) / count
    }
}

/// The encoded length `4 * ceil(n / 3)` stays within platform limits when
/// the payload does.
proof fn lemma_encoded_len_bound(n: int)
    requires
        0 <= n <= usize::MAX as int / 8,
    ensures
        4 * ((n + 2) / 3) <= usize::MAX as int / 2,
{
    let m = usize::MAX as int;
    if n <= 1 {
        assert(4 * ((n + 2) / 3) <= 4);
    } else {
        assert((n + 2) / 3 <= n) by {
            lemma_div_is_ordered(n + 2, 3 * n, 3);
            assert(3 * n / 3 == n) by (nonlinear_arith);
        };
        assert(4 * ((n + 2) / 3) <= 4 * n);
        assert(4 * (m / 8) <= m / 2) by (nonlinear_arith)
            requires m >= 0;
    }
}

/// The chunk count is at least one.
proof fn lemma_chunk_count_at_least_one(len: int, size: int)
    requires
        len >= 0,
        size >= 1,
    ensures
        spec_chunk_count(len, size) >= 1,
{
    if len > 0 {
        assert((len + size - 1) / size >= 1) by (nonlinear_arith)
            requires len >= 1 && size >= 1;
    }
}

/// The chunk count never exceeds the text length (for nonempty text).
proof fn lemma_chunk_count_bounded(len: int, size: int)
    requires
        len >= 1,
        size >= 4,
    ensures
        1 <= spec_chunk_count(len, size) <= len,
{
    lemma_chunk_count_at_least_one(len, size);
    assert((len + size - 1) / size <= len) by (nonlinear_arith)
        requires len >= 1 && size >= 4;
}

/// Every chunk before the last starts strictly inside the text, so its
/// index arithmetic stays in bounds.
proof fn lemma_chunk_start_in_range(len: int, size: int, i: int)
    requires
        len >= 0,
        size >= 1,
        0 <= i < spec_chunk_count(len, size),
    ensures
        i * size <= len,
        len > 0 ==> i * size < len,
        i * size >= 0,
{
    if len == 0 {
        assert(i == 0);
    } else {
        let count = (len + size - 1) / size;
        assert(i + 1 <= count);
        assert((i + 1) * size <= len + size - 1) by (nonlinear_arith)
            requires i + 1 <= (len + size - 1) / size && size >= 1 && len >= 1;
        assert((i + 1) * size == i * size + size) by (nonlinear_arith);
        assert(i * size <= len - 1);
        assert(i * size >= 0) by (nonlinear_arith)
            requires i >= 0 && size >= 1;
    }
}

/// Chunking an empty payload yields exactly one chunk, the empty text.
pub proof fn lemma_empty_chunking(size: int)
    requires
        size >= 1,
    ensures
        spec_chunk_count(0, size) == 1,
        spec_chunk(Seq::<char>::empty(), size, 0) == Seq::<char>::empty(),
{
    assert(spec_chunk(Seq::<char>::empty(), size, 0) =~= Seq::<char>::empty());
}

/// Every chunk of a nonempty text except the last has exactly the
/// sanitized chunk size, which is a multiple of four; the last chunk is
/// nonempty and no longer than that.
pub proof fn lemma_chunk_lengths(s: Seq<char>, requested: int, i: int)
    requires
        s.len() > 0,
        0 <= i < spec_chunk_count(s.len() as int, spec_sanitize(requested)),
    ensures
        i < spec_chunk_count(s.len() as int, spec_sanitize(requested)) - 1 ==> {
            &&& spec_chunk(s, spec_sanitize(requested), i).len() == spec_sanitize(requested)
            &&& spec_chunk(s, spec_sanitize(requested), i).len() % 4 == 0
        },
        i == spec_chunk_count(s.len() as int, spec_sanitize(requested)) - 1 ==> {
            &&& 0 < spec_chunk(s, spec_sanitize(requested), i).len()
            &&& spec_chunk(s, spec_sanitize(requested), i).len() <= spec_sanitize(requested)
        },
{
    let size = spec_sanitize(requested);
    let len = s.len() as int;
    let count = (len + size - 1) / size;
    lemma_chunk_start_in_range(len, size, i);
    if i < count - 1 {
        assert((i + 2) * size <= len + size - 1) by (nonlinear_arith)
            requires i + 2 <= (len + size - 1) / size && size >= 1 && len >= 1;
        assert((i + 2) * size == (i + 1) * size + size) by (nonlinear_arith);
        assert((i + 1) * size <= len - 1);
        assert((i + 1) * size == i * size + size) by (nonlinear_arith);
    } else {
        assert(i == count - 1);
        assert(count * size >= len) by (nonlinear_arith)
            requires count == (len + size - 1) / size && size >= 1 && len >= 1;
        assert((i + 1) * size == i * size + size) by (nonlinear_arith);
        assert(count * size == i * size + size) by (nonlinear_arith)
            requires count == i + 1;
        assert(i * size < len);
    }
}

} // verus!
