//! The assembler: source text to operations, in two passes.

use vstd::prelude::*;
use vstd::string::StringSliceAdditionalSpecFns;
use vstd::utf8::is_char_boundary;

pub mod lex;
pub mod parse1;
pub mod parse2;

verus! {

/// Rich representation of source text span.
#[derive(Clone, Copy, Debug, PartialEq, Eq)]
pub struct Span<'s> {
    /// Zero based line number where the span starts.
    /// Spans cannot exceed a line.
    pub line: usize,
    /// Zero based column index, in bytes, and starting from `line_start`,
    /// where the span starts.
    pub col_idx: usize,
    /// Length of the span in bytes.
    pub len: usize,
    /// Absolute byte index of the start of the line.
    pub line_start: usize,
    /// Reference to the source text.
    pub src: &'s str,
}

/// `str::get` with a range of byte indices: the part of `s` from `start`
/// up to `end`, if the range lies within `s` and both its ends fall on the
/// boundary of a character.
#[verifier::external_body]
fn str_slice<'s>(s: &'s str, start: usize, end: usize) -> (r: Option<&'s str>)
    ensures
        r is Some <==> (start <= end <= s.spec_bytes().len() && is_char_boundary(
            s.spec_bytes(),
            start as int,
        ) && is_char_boundary(s.spec_bytes(), end as int)),
        r is Some ==> r->Some_0.spec_bytes() == s.spec_bytes().subrange(start as int, end as int),
{
    s.get(start..end)
}

/// The place of the first line feed among `bytes` from `from` on, or their
/// number where there is none.
pub open spec fn line_end_spec(bytes: Seq<u8>, from: int) -> int
    decreases bytes.len() - from,
{
    if from >= bytes.len() {
        bytes.len() as int
    } else if bytes[from] == 0x0Au8 {
        from
    } else {
        line_end_spec(bytes, from + 1)
    }
}

impl<'s> Span<'s> {
    /// The byte index at which the span starts.
    pub open spec fn start(self) -> int {
        self.line_start + self.col_idx
    }

    /// The bytes of the source text that the span covers.
    pub open spec fn bytes(self) -> Seq<u8> {
        self.src.spec_bytes().subrange(self.start(), self.start() + self.len)
    }

    /// Whether the span lies within the source text.
    pub open spec fn in_bounds(self) -> bool {
        self.start() + self.len <= self.src.spec_bytes().len()
    }

    /// Whether the span can be cut out of the source text: it lies within
    /// it and cuts no character.
    pub open spec fn cuts_clean(self) -> bool {
        &&& self.in_bounds()
        &&& is_char_boundary(self.src.spec_bytes(), self.start())
        &&& is_char_boundary(self.src.spec_bytes(), self.start() + self.len)
    }

    /// The text that the span covers.
    pub fn get(&self) -> (text: &'s str)
        requires
            self.cuts_clean(),
        ensures
            text.spec_bytes() == self.bytes(),
    {
        let total = self.src.as_bytes().len();
        let start = self.line_start + self.col_idx;
        match str_slice(self.src, start, start + self.len) {
            Some(text) => text,
            None => "",
        }
    }

    /// The line in which the span starts, without its line feed.
    pub fn get_line(&self) -> (text: &'s str)
        requires
            self.line_start <= self.src.spec_bytes().len(),
            is_char_boundary(self.src.spec_bytes(), self.line_start as int),
            is_char_boundary(
                self.src.spec_bytes(),
                line_end_spec(self.src.spec_bytes(), self.line_start as int),
            ),
        ensures
            text.spec_bytes() == self.src.spec_bytes().subrange(
                self.line_start as int,
                line_end_spec(self.src.spec_bytes(), self.line_start as int),
            ),
    {
        let bytes = self.src.as_bytes();
        let total = bytes.len();
        let mut end: usize = self.line_start;
        while end < total && bytes[end] != 0x0A
            invariant
                self.line_start <= end <= total,
                total == bytes@.len(),
                bytes@ == self.src.spec_bytes(),
                line_end_spec(bytes@, self.line_start as int) == line_end_spec(bytes@, end as int),
            decreases total - end,
        {
            end = end + 1;
        }
        proof {
            lemma_line_end_bounds(bytes@, self.line_start as int);
        }
        match str_slice(self.src, self.line_start, end) {
            Some(text) => text,
            None => "",
        }
    }
}

/// A line ends at or after its start, and within the text.
pub proof fn lemma_line_end_bounds(bytes: Seq<u8>, from: int)
    requires
        0 <= from <= bytes.len(),
    ensures
        from <= line_end_spec(bytes, from) <= bytes.len(),
    decreases bytes.len() - from,
{
    if from < bytes.len() && bytes[from] != 0x0Au8 {
        lemma_line_end_bounds(bytes, from + 1);
    }
}

/// Whether two byte strings are the same.
pub fn bytes_eq(a: &[u8], b: &[u8]) -> (same: bool)
    ensures
        same == (a@ == b@),
{
    if a.len() != b.len() {
        return false;
    }
    let n = a.len();
    let mut i: usize = 0;
    while i < n
        invariant
            i <= n,
            n == a@.len(),
            n == b@.len(),
            forall|k: int| 0 <= k < i ==> a@[k] == b@[k],
        decreases n - i,
    {
        if a[i] != b[i] {
            return false;
        }
        i = i + 1;
    }
    proof {
        assert(a@ =~= b@);
    }
    true
}

} // verus!
