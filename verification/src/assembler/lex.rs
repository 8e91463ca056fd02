//! The lexer: source text to tokens.

use vstd::prelude::*;
use vstd::slice::slice_subrange;
use vstd::string::StringSliceAdditionalSpecFns;
use unicode_segmentation::UnicodeSegmentation;
use crate::assembler::parse1::OperandType;
use crate::assembler::Span;
use crate::ints::UGran;
use crate::op::OpKind;
use crate::registers::Register;
use crate::syscall::SyscallKind;

verus! {

/// What starts a comment, which runs to the end of its line.
pub const COMMENT: &'static str = ";";

/// A token and where it stands.
#[derive(Clone, Copy, Debug, PartialEq, Eq)]
pub struct Token<'s> {
    pub typ: TokenTyp,
    pub span: Span<'s>,
}

/// The kinds of token.
#[derive(Clone, Copy, Debug, PartialEq, Eq, Structural)]
pub enum TokenTyp {
    /// The mnemonic of an operation.
    Op(OpKind),
    /// The name of a register.
    Register(Register),
    /// The symbol of a system call.
    Syscall(SyscallKind),
    /// A number, or the name of a constant.
    UnsignedInt(UGran),
    /// Any other word.
    Identifier,
    Comma,
    Colon,
    Newline,
    /// The end of the text.
    Eof,
}

impl TokenTyp {
    /// The type of operand that the token can stand for.
    pub open spec fn operand_type_spec(self) -> Option<OperandType> {
        match self {
            TokenTyp::Register(_) => Some(OperandType::Register),
            TokenTyp::Syscall(_) | TokenTyp::UnsignedInt(_) => Some(OperandType::Immediate),
            TokenTyp::Identifier => Some(OperandType::Label),
            _ => None,
        }
    }

    /// The type of operand that the token can stand for, if it can stand
    /// for one.
    pub fn operand_type(self) -> (r: Option<OperandType>)
        ensures
            r == self.operand_type_spec(),
    {
        match self {
            TokenTyp::Register(_) => Some(OperandType::Register),
            TokenTyp::Syscall(_) | TokenTyp::UnsignedInt(_) => Some(OperandType::Immediate),
            TokenTyp::Identifier => Some(OperandType::Label),
            _ => None,
        }
    }
}

/// A word that is no token, and where it stands.
#[derive(Clone, Copy, Debug, PartialEq, Eq)]
pub struct LexErr<'s> {
    pub typ: LexErrTyp,
    pub span: Span<'s>,
}

/// Why a word is no token.
#[derive(Clone, Copy, Debug, PartialEq, Eq, Structural)]
pub enum LexErrTyp {
    UnknownIdent,
    /// The number does not fit in a grain.
    InvalidUnsignedInt,
}

/// A grapheme cluster of the source text: the byte at which it starts, and
/// its length in bytes.
pub type Cluster = (usize, usize);

/// The grapheme clusters of a text, in order.
pub uninterp spec fn grapheme_spans(text: Seq<char>) -> Seq<Cluster>;

/// The byte after a cluster.
pub open spec fn cluster_end(c: Cluster) -> int {
    c.0 + c.1
}

/// Whether the clusters cut `total` bytes into pieces that follow one
/// another without a gap, none of them empty.
pub open spec fn segmented(clusters: Seq<Cluster>, total: nat) -> bool {
    &&& forall|i: int|
        0 <= i < clusters.len() ==> (#[trigger] clusters[i]).1 >= 1 && cluster_end(clusters[i])
            <= total
    &&& forall|i: int|
        0 <= i < clusters.len() - 1 ==> #[trigger] clusters[i + 1].0 == cluster_end(clusters[i])
    &&& clusters.len() > 0 ==> clusters[0].0 == 0 && cluster_end(clusters.last()) == total
    &&& clusters.len() == 0 ==> total == 0
}

/// `UnicodeSegmentation::grapheme_indices`, for extended grapheme
/// clusters: the clusters of the text, each as the byte at which it starts
/// and its length. They follow one another from the first byte to the
/// last, and none is empty.
#[verifier::external_body]
fn grapheme_indices(src: &str) -> (g: Vec<Cluster>)
    ensures
        g@ == grapheme_spans(src@),
        segmented(g@, src.spec_bytes().len()),
{
    let mut out: Vec<Cluster> = Vec::new();
    for (idx, cluster) in UnicodeSegmentation::grapheme_indices(src, true) {
        out.push((idx, cluster.len()));
    }
    out
}

/// In a segmented text, a cluster starts where the clusters before it
/// end: no earlier than any of them.
pub proof fn lemma_segmented_ordered(clusters: Seq<Cluster>, total: nat, i: int, j: int)
    requires
        segmented(clusters, total),
        0 <= i <= j < clusters.len(),
    ensures
        clusters[i].0 <= clusters[j].0,
        i < j ==> cluster_end(clusters[i]) <= clusters[j].0,
    decreases j - i,
{
    if i < j {
        lemma_segmented_ordered(clusters, total, i, j - 1);
        assert(clusters[(j - 1) + 1].0 == cluster_end(clusters[j - 1]));
    }
}

/// The byte at which the cluster at `pos` starts; the end of the text
/// where there is no such cluster.
pub open spec fn start_at(clusters: Seq<Cluster>, total: nat, pos: int) -> int {
    if 0 <= pos < clusters.len() {
        clusters[pos].0 as int
    } else {
        total as int
    }
}

/// Whether the cluster is the one byte `byte`.
pub open spec fn is_byte(bytes: Seq<u8>, c: Cluster, byte: u8) -> bool {
    c.1 == 1 && bytes[c.0 as int] == byte
}

/// The token that a cluster is by itself, wherever it stands.
pub open spec fn punct_spec(bytes: Seq<u8>, c: Cluster) -> Option<TokenTyp> {
    if is_byte(bytes, c, 0x2C) {
        Some(TokenTyp::Comma)
    } else if is_byte(bytes, c, 0x3A) {
        Some(TokenTyp::Colon)
    } else if is_byte(bytes, c, 0x0A) {
        Some(TokenTyp::Newline)
    } else {
        None
    }
}

/// The number of bytes at the start of `text` that encode one character of
/// white space; zero where they encode none. White space is what Unicode
/// gives the property `White_Space`: the characters from U+0009 to U+000D,
/// U+0020, U+0085, U+00A0, U+1680, those from U+2000 to U+200A, U+2028,
/// U+2029, U+202F, U+205F and U+3000.
pub open spec fn space_width(text: Seq<u8>) -> nat {
    if text.len() >= 1 && (0x09 <= text[0] <= 0x0D || text[0] == 0x20) {
        1
    } else if text.len() >= 2 && text[0] == 0xC2 && (text[1] == 0x85 || text[1] == 0xA0) {
        2
    } else if text.len() >= 3 && text[0] == 0xE1 && text[1] == 0x9A && text[2] == 0x80 {
        3
    } else if text.len() >= 3 && text[0] == 0xE2 && text[1] == 0x80 && (0x80 <= text[2] <= 0x8A
        || text[2] == 0xA8 || text[2] == 0xA9 || text[2] == 0xAF) {
        3
    } else if text.len() >= 3 && text[0] == 0xE2 && text[1] == 0x81 && text[2] == 0x9F {
        3
    } else if text.len() >= 3 && text[0] == 0xE3 && text[1] == 0x80 && text[2] == 0x80 {
        3
    } else {
        0
    }
}

/// Whether `text` is white space throughout.
pub open spec fn all_space(text: Seq<u8>) -> bool
    decreases text.len(),
{
    if text.len() == 0 {
        true
    } else if space_width(text) == 0 {
        false
    } else {
        all_space(text.subrange(space_width(text) as int, text.len() as int))
    }
}

/// The bytes of a cluster.
pub open spec fn cluster_bytes(bytes: Seq<u8>, c: Cluster) -> Seq<u8> {
    bytes.subrange(c.0 as int, cluster_end(c))
}

/// Whether a cluster ends a word: a token by itself, white space, or the
/// start of a comment.
pub open spec fn ends_word(bytes: Seq<u8>, c: Cluster) -> bool {
    punct_spec(bytes, c) is Some || all_space(cluster_bytes(bytes, c)) || is_byte(bytes, c, 0x3B)
}

/// What the lexer finds next.
pub enum Scan {
    /// Nothing but white space and a comment without end.
    End,
    /// A cluster that is a token by itself, at the given place.
    Punct(int),
    /// A word that starts with the cluster at the given place.
    Word(int),
}

/// The place of the first line feed among the clusters from `pos` on.
pub open spec fn find_newline(bytes: Seq<u8>, clusters: Seq<Cluster>, pos: int) -> Option<int>
    decreases clusters.len() - pos,
{
    if pos < 0 || pos >= clusters.len() {
        None
    } else if is_byte(bytes, clusters[pos], 0x0A) {
        Some(pos)
    } else {
        find_newline(bytes, clusters, pos + 1)
    }
}

/// What the lexer finds from the cluster at `pos` on: white space is
/// passed over, and a comment up to the line feed that ends it.
pub open spec fn scan_spec(bytes: Seq<u8>, clusters: Seq<Cluster>, pos: int) -> Scan
    decreases clusters.len() - pos,
{
    if pos < 0 || pos >= clusters.len() {
        Scan::End
    } else if is_byte(bytes, clusters[pos], 0x3B) {
        match find_newline(bytes, clusters, pos + 1) {
            Some(at) => Scan::Punct(at),
            None => Scan::End,
        }
    } else if punct_spec(bytes, clusters[pos]) is Some {
        Scan::Punct(pos)
    } else if all_space(cluster_bytes(bytes, clusters[pos])) {
        scan_spec(bytes, clusters, pos + 1)
    } else {
        Scan::Word(pos)
    }
}

/// The place of the first cluster from `pos` on that ends a word; the
/// number of clusters where none does.
pub open spec fn word_end(bytes: Seq<u8>, clusters: Seq<Cluster>, pos: int) -> int
    decreases clusters.len() - pos,
{
    if pos < 0 || pos >= clusters.len() {
        clusters.len() as int
    } else if ends_word(bytes, clusters[pos]) {
        pos
    } else {
        word_end(bytes, clusters, pos + 1)
    }
}

/// What a decimal number is read as.
pub enum Number {
    Value(UGran),
    /// The digits stand for more than a grain holds.
    Overflow,
    /// Not a number.
    Other,
}

/// The digits of `text` from `at` on, read after the digits that gave
/// `acc`: the first byte that is no digit makes it no number, and the
/// first digit with which the number outgrows a grain makes it overflow.
pub open spec fn digits_spec(text: Seq<u8>, at: int, acc: UGran) -> Number
    decreases text.len() - at,
{
    if at < 0 || at >= text.len() {
        Number::Value(acc)
    } else if !(0x30 <= text[at] <= 0x39) {
        Number::Other
    } else if acc * 10 + (text[at] - 0x30) > UGran::MAX {
        Number::Overflow
    } else {
        digits_spec(text, at + 1, (acc * 10 + (text[at] - 0x30)) as UGran)
    }
}

/// What `text` is read as: decimal digits, after a plus sign or none.
pub open spec fn number_spec(text: Seq<u8>) -> Number {
    if text.len() == 0 {
        Number::Other
    } else if text[0] == 0x2B {
        if text.len() == 1 {
            Number::Other
        } else {
            digits_spec(text, 1, 0)
        }
    } else {
        digits_spec(text, 0, 0)
    }
}

/// Reads a decimal number.
pub fn parse_number(text: &[u8]) -> (r: Number)
    ensures
        r == number_spec(text@),
{
    let n = text.len();
    if n == 0 {
        return Number::Other;
    }
    let mut at: usize = 0;
    if text[0] == 0x2B {
        if n == 1 {
            return Number::Other;
        }
        at = 1;
    }
    let mut acc: UGran = 0;
    while at < n
        invariant
            at <= n,
            n == text@.len(),
            number_spec(text@) == digits_spec(text@, at as int, acc),
        decreases n - at,
    {
        let byte = text[at];
        if byte < 0x30 || byte > 0x39 {
            return Number::Other;
        }
        let digit: UGran = (byte - 0x30) as UGran;
        let next = match acc.checked_mul(10) {
            Some(tens) => tens.checked_add(digit),
            None => None,
        };
        match next {
            Some(v) => {
                acc = v;
            },
            None => {
                return Number::Overflow;
            },
        }
        at = at + 1;
    }
    Number::Value(acc)
}

/// The names of the constants that source text may use, with what they
/// stand for.
pub open spec fn constant_spec(text: Seq<u8>) -> Option<UGran> {
    if text == "UGRAN_SIZE".spec_bytes() {
        Some(8)
    } else if text == "UGRAN_BITS".spec_bytes() {
        Some(64)
    } else if text == "UADDR_SIZE".spec_bytes() {
        Some(2)
    } else if text == "UADDR_BITS".spec_bytes() {
        Some(16)
    } else {
        None
    }
}

/// The token that a word is: the mnemonic of an operation, else the name
/// of a register, else the symbol of a system call, else the name of a
/// constant, else a number, else an identifier. A number that does not fit
/// in a grain is no token.
pub open spec fn word_spec(text: Seq<u8>) -> Result<TokenTyp, LexErrTyp> {
    match OpKind::named(text) {
        Some(op) => Ok(TokenTyp::Op(op)),
        None => match Register::named(text) {
            Some(reg) => Ok(TokenTyp::Register(reg)),
            None => match SyscallKind::named(text) {
                Some(syscall) => Ok(TokenTyp::Syscall(syscall)),
                None => match constant_spec(text) {
                    Some(v) => Ok(TokenTyp::UnsignedInt(v)),
                    None => match number_spec(text) {
                        Number::Value(v) => Ok(TokenTyp::UnsignedInt(v)),
                        Number::Overflow => Err(LexErrTyp::InvalidUnsignedInt),
                        Number::Other => Ok(TokenTyp::Identifier),
                    },
                },
            },
        },
    }
}

/// What the lexer is at: the clusters passed, the line, and whether the
/// end of the text has been reported.
pub struct LexState {
    pub pos: int,
    pub line: int,
    pub line_start: int,
    pub eof: bool,
}

/// The source text cut into tokens, one at a time.
pub struct Lexer<'s> {
    pub src: &'s str,
    pub graphs: Vec<Cluster>,
    pub pos: usize,
    pub line: usize,
    pub line_start: usize,
    pub eof: bool,
}

/// The span of the word or cluster from the cluster at `from` up to that
/// at `to`, in the line that the lexer is in.
pub open spec fn span_of<'s>(
    src: &'s str,
    clusters: Seq<Cluster>,
    st: LexState,
    from: int,
    to: int,
) -> Span<'s> {
    Span {
        line: st.line as usize,
        col_idx: (clusters[from].0 - st.line_start) as usize,
        len: (start_at(clusters, src.spec_bytes().len(), to) - clusters[from].0) as usize,
        line_start: st.line_start as usize,
        src,
    }
}

/// The span of the end of the text.
pub open spec fn eof_span<'s>(src: &'s str, st: LexState) -> Span<'s> {
    Span {
        line: st.line as usize,
        col_idx: (src.spec_bytes().len() - st.line_start) as usize,
        len: 0,
        line_start: st.line_start as usize,
        src,
    }
}

/// The lexer after its next step, and what the step gives: a token, a
/// word that is none, or nothing once the end has been reported.
pub open spec fn lex_spec<'s>(src: &'s str, clusters: Seq<Cluster>, st: LexState) -> (
    LexState,
    Option<Result<Token<'s>, LexErr<'s>>>,
) {
    let bytes = src.spec_bytes();
    if st.eof {
        (st, None)
    } else {
        match scan_spec(bytes, clusters, st.pos) {
            Scan::End => (
                LexState { pos: clusters.len() as int, line: st.line, line_start: st.line_start, eof: true },
                Some(Ok(Token { typ: TokenTyp::Eof, span: eof_span(src, st) })),
            ),
            Scan::Punct(at) => {
                let typ = punct_spec(bytes, clusters[at])->Some_0;
                let newline = typ == TokenTyp::Newline;
                (
                    LexState {
                        pos: at + 1,
                        line: if newline {
                            st.line + 1
                        } else {
                            st.line
                        },
                        line_start: if newline {
                            clusters[at].0 + 1
                        } else {
                            st.line_start
                        },
                        eof: false,
                    },
                    Some(Ok(Token { typ, span: span_of(src, clusters, st, at, at + 1) })),
                )
            },
            Scan::Word(at) => {
                let to = word_end(bytes, clusters, at + 1);
                let span = span_of(src, clusters, st, at, to);
                (
                    LexState { pos: to, line: st.line, line_start: st.line_start, eof: false },
                    Some(
                        match word_spec(span.bytes()) {
                            Ok(typ) => Ok(Token { typ, span }),
                            Err(typ) => Err(LexErr { typ, span }),
                        },
                    ),
                )
            },
        }
    }
}

impl<'s> Lexer<'s> {
    /// What the lexer is at.
    pub open spec fn state(self) -> LexState {
        LexState {
            pos: self.pos as int,
            line: self.line as int,
            line_start: self.line_start as int,
            eof: self.eof,
        }
    }

    /// Whether the lexer stands in its text: the clusters cut the text,
    /// and the line that it is in started no later than the next cluster.
    pub open spec fn wf(self) -> bool {
        &&& segmented(self.graphs@, self.src.spec_bytes().len())
        &&& self.pos <= self.graphs@.len()
        &&& self.line <= self.pos
        &&& self.line_start <= start_at(
            self.graphs@,
            self.src.spec_bytes().len(),
            self.pos as int,
        )
        &&& (self.eof ==> self.pos == self.graphs@.len())
    }

    /// What is left for the lexer to do: the clusters not yet passed, and
    /// the end of the text not yet reported.
    pub open spec fn left(self) -> nat {
        (self.graphs@.len() - self.pos + if self.eof {
            0nat
        } else {
            1nat
        }) as nat
    }

    /// A lexer at the start of `src`.
    pub fn new(src: &'s str) -> (lexer: Self)
        ensures
            lexer.wf(),
            lexer.src == src,
            lexer.graphs@ == grapheme_spans(src@),
            lexer.state() == (LexState { pos: 0, line: 0, line_start: 0, eof: false }),
    {
        Self::with_clusters(src, grapheme_indices(src))
    }

    /// A lexer at the start of `src`, whose grapheme clusters are `graphs`.
    pub fn with_clusters(src: &'s str, graphs: Vec<Cluster>) -> (lexer: Self)
        requires
            segmented(graphs@, src.spec_bytes().len()),
        ensures
            lexer.wf(),
            lexer.src == src,
            lexer.graphs@ == graphs@,
            lexer.state() == (LexState { pos: 0, line: 0, line_start: 0, eof: false }),
    {
        Lexer { src, graphs, pos: 0, line: 0, line_start: 0, eof: false }
    }

    /// The token that a cluster is by itself, wherever it stands.
    pub fn check_no_ctx(chr: &[u8]) -> (r: Option<TokenTyp>)
        ensures
            r == punct_spec(chr@, (0usize, chr@.len() as usize)),
    {
        if chr.len() != 1 {
            None
        } else if chr[0] == 0x2C {
            Some(TokenTyp::Comma)
        } else if chr[0] == 0x3A {
            Some(TokenTyp::Colon)
        } else if chr[0] == 0x0A {
            Some(TokenTyp::Newline)
        } else {
            None
        }
    }

    /// The token that a word is.
    pub fn check_ctx(span: &[u8]) -> (r: Result<TokenTyp, LexErrTyp>)
        ensures
            r == word_spec(span@),
    {
        match OpKind::from_name(span) {
            Some(op) => {
                return Ok(TokenTyp::Op(op));
            },
            None => {},
        }
        match Register::from_name(span) {
            Some(reg) => {
                return Ok(TokenTyp::Register(reg));
            },
            None => {},
        }
        match SyscallKind::from_symbol(span) {
            Some(syscall) => {
                return Ok(TokenTyp::Syscall(syscall));
            },
            None => {},
        }
        if crate::assembler::bytes_eq(span, "UGRAN_SIZE".as_bytes()) {
            return Ok(TokenTyp::UnsignedInt(8));
        }
        if crate::assembler::bytes_eq(span, "UGRAN_BITS".as_bytes()) {
            return Ok(TokenTyp::UnsignedInt(64));
        }
        if crate::assembler::bytes_eq(span, "UADDR_SIZE".as_bytes()) {
            return Ok(TokenTyp::UnsignedInt(2));
        }
        if crate::assembler::bytes_eq(span, "UADDR_BITS".as_bytes()) {
            return Ok(TokenTyp::UnsignedInt(16));
        }
        match parse_number(span) {
            Number::Value(v) => Ok(TokenTyp::UnsignedInt(v)),
            Number::Overflow => Err(LexErrTyp::InvalidUnsignedInt),
            Number::Other => Ok(TokenTyp::Identifier),
        }
    }
}

/// What the lexer finds next, as places among the clusters.
pub enum Found {
    End,
    Punct(usize),
    Word(usize),
}

impl Found {
    /// The same as a `Scan`.
    pub open spec fn view(self) -> Scan {
        match self {
            Found::End => Scan::End,
            Found::Punct(at) => Scan::Punct(at as int),
            Found::Word(at) => Scan::Word(at as int),
        }
    }
}

/// A scan finds what it finds at a cluster that there is, at or after the
/// cluster that it started from; what it finds as a token by itself is
/// one.
pub proof fn lemma_scan_bounds(bytes: Seq<u8>, clusters: Seq<Cluster>, pos: int)
    requires
        0 <= pos,
    ensures
        match scan_spec(bytes, clusters, pos) {
            Scan::End => true,
            Scan::Punct(at) => pos <= at < clusters.len() && punct_spec(bytes, clusters[at]) is Some,
            Scan::Word(at) => pos <= at < clusters.len() && !ends_word(bytes, clusters[at]),
        },
    decreases clusters.len() - pos,
{
    if pos < clusters.len() {
        if is_byte(bytes, clusters[pos], 0x3B) {
            lemma_find_newline_bounds(bytes, clusters, pos + 1);
        } else if punct_spec(bytes, clusters[pos]) is Some {
        } else if all_space(cluster_bytes(bytes, clusters[pos])) {
            lemma_scan_bounds(bytes, clusters, pos + 1);
        }
    }
}

/// A line feed is found at a cluster that there is, at or after the
/// cluster that the search started from.
pub proof fn lemma_find_newline_bounds(bytes: Seq<u8>, clusters: Seq<Cluster>, pos: int)
    requires
        0 <= pos,
    ensures
        match find_newline(bytes, clusters, pos) {
            Some(at) => pos <= at < clusters.len() && is_byte(bytes, clusters[at], 0x0A),
            None => true,
        },
    decreases clusters.len() - pos,
{
    if pos < clusters.len() && !is_byte(bytes, clusters[pos], 0x0A) {
        lemma_find_newline_bounds(bytes, clusters, pos + 1);
    }
}

/// A word ends at or after the cluster from which its end is sought.
pub proof fn lemma_word_end_bounds(bytes: Seq<u8>, clusters: Seq<Cluster>, pos: int)
    requires
        0 <= pos <= clusters.len(),
    ensures
        pos <= word_end(bytes, clusters, pos) <= clusters.len(),
    decreases clusters.len() - pos,
{
    if pos < clusters.len() && !ends_word(bytes, clusters[pos]) {
        lemma_word_end_bounds(bytes, clusters, pos + 1);
    }
}

/// The span of what a step of the lexer gives lies within the text, in
/// the line that the lexer was in, and nothing but the end of the text has
/// an empty span.
pub proof fn lemma_span_in_text(lexer: Lexer)
    requires
        lexer.wf(),
        !lexer.eof,
        lexer.src.spec_bytes().len() <= usize::MAX,
    ensures
        match lex_spec(lexer.src, lexer.graphs@, lexer.state()).1 {
            Some(Ok(token)) => token.span.in_bounds() && token.span.src == lexer.src
                && token.span.line == lexer.line && token.span.line_start == lexer.line_start
                && (token.span.len == 0 <==> token.typ == TokenTyp::Eof),
            Some(Err(err)) => err.span.in_bounds() && err.span.src == lexer.src && err.span.len
                > 0,
            None => false,
        },
{
    let bytes = lexer.src.spec_bytes();
    let clusters = lexer.graphs@;
    let total = bytes.len();
    lemma_scan_bounds(bytes, clusters, lexer.pos as int);
    if lexer.pos < clusters.len() {
        assert(cluster_end(clusters[lexer.pos as int]) <= total);
    }
    match scan_spec(bytes, clusters, lexer.pos as int) {
        Scan::End => {},
        Scan::Punct(at) => {
            lemma_segmented_ordered(clusters, total, lexer.pos as int, at);
            assert(clusters[at].1 >= 1 && cluster_end(clusters[at]) <= total);
            if at + 1 < clusters.len() {
                assert(clusters[at + 1].0 == cluster_end(clusters[at]));
            } else {
                assert(clusters[at] == clusters.last());
            }
        },
        Scan::Word(at) => {
            lemma_word_end_bounds(bytes, clusters, at + 1);
            let to = word_end(bytes, clusters, at + 1);
            lemma_segmented_ordered(clusters, total, lexer.pos as int, at);
            assert(clusters[at].1 >= 1 && cluster_end(clusters[at]) <= total);
            if to < clusters.len() {
                lemma_segmented_ordered(clusters, total, at, to);
                assert(cluster_end(clusters[to]) <= total);
            }
            let span = span_of(lexer.src, clusters, lexer.state(), at, to);
            assert(span.len > 0);
            assert(span.in_bounds());
        },
    }
}

impl<'s> Lexer<'s> {
    fn cluster_is(&self, bytes: &[u8], at: usize, byte: u8) -> (r: bool)
        requires
            self.wf(),
            bytes@ == self.src.spec_bytes(),
            at < self.graphs@.len(),
        ensures
            r == is_byte(bytes@, self.graphs@[at as int], byte),
    {
        let c = self.graphs[at];
        c.1 == 1 && bytes[c.0] == byte
    }

    fn punct_at(&self, bytes: &[u8], at: usize) -> (r: Option<TokenTyp>)
        requires
            self.wf(),
            bytes@ == self.src.spec_bytes(),
            at < self.graphs@.len(),
        ensures
            r == punct_spec(bytes@, self.graphs@[at as int]),
    {
        if self.cluster_is(bytes, at, 0x2C) {
            Some(TokenTyp::Comma)
        } else if self.cluster_is(bytes, at, 0x3A) {
            Some(TokenTyp::Colon)
        } else if self.cluster_is(bytes, at, 0x0A) {
            Some(TokenTyp::Newline)
        } else {
            None
        }
    }

    fn ends_word_at(&self, bytes: &[u8], at: usize) -> (r: bool)
        requires
            self.wf(),
            bytes@ == self.src.spec_bytes(),
            at < self.graphs@.len(),
        ensures
            r == ends_word(bytes@, self.graphs@[at as int]),
    {
        if self.punct_at(bytes, at).is_some() {
            return true;
        }
        if self.space_at(bytes, at) {
            return true;
        }
        self.cluster_is(bytes, at, 0x3B)
    }

    fn space_at(&self, bytes: &[u8], at: usize) -> (r: bool)
        requires
            self.wf(),
            bytes@ == self.src.spec_bytes(),
            at < self.graphs@.len(),
        ensures
            r == all_space(cluster_bytes(bytes@, self.graphs@[at as int])),
    {
        let c = self.graphs[at];
        let total = bytes.len();
        proof {
            assert(cluster_end(self.graphs@[at as int]) <= total);
        }
        is_space(slice_subrange(bytes, c.0, c.0 + c.1))
    }

    fn find_newline_at(&self, bytes: &[u8], from: usize) -> (r: Option<usize>)
        requires
            self.wf(),
            bytes@ == self.src.spec_bytes(),
        ensures
            match r {
                Some(at) => find_newline(bytes@, self.graphs@, from as int) == Some(at as int),
                None => find_newline(bytes@, self.graphs@, from as int) is None,
            },
    {
        let n = self.graphs.len();
        let mut at = from;
        while at < n
            invariant
                self.wf(),
                bytes@ == self.src.spec_bytes(),
                n == self.graphs@.len(),
                from <= at,
                find_newline(bytes@, self.graphs@, from as int) == find_newline(
                    bytes@,
                    self.graphs@,
                    at as int,
                ),
            decreases n - at,
        {
            if self.cluster_is(bytes, at, 0x0A) {
                return Some(at);
            }
            at = at + 1;
        }
        None
    }

    fn scan(&self, bytes: &[u8]) -> (r: Found)
        requires
            self.wf(),
            bytes@ == self.src.spec_bytes(),
        ensures
            r@ == scan_spec(bytes@, self.graphs@, self.pos as int),
    {
        let n = self.graphs.len();
        let mut at = self.pos;
        while at < n
            invariant
                self.wf(),
                bytes@ == self.src.spec_bytes(),
                n == self.graphs@.len(),
                self.pos <= at,
                scan_spec(bytes@, self.graphs@, self.pos as int) == scan_spec(
                    bytes@,
                    self.graphs@,
                    at as int,
                ),
            decreases n - at,
        {
            if self.cluster_is(bytes, at, 0x3B) {
                return match self.find_newline_at(bytes, at + 1) {
                    Some(line_feed) => Found::Punct(line_feed),
                    None => Found::End,
                };
            }
            if self.punct_at(bytes, at).is_some() {
                return Found::Punct(at);
            }
            if !self.space_at(bytes, at) {
                return Found::Word(at);
            }
            at = at + 1;
        }
        Found::End
    }

    fn word_end_at(&self, bytes: &[u8], from: usize) -> (to: usize)
        requires
            self.wf(),
            bytes@ == self.src.spec_bytes(),
            from <= self.graphs@.len(),
        ensures
            to == word_end(bytes@, self.graphs@, from as int),
            from <= to <= self.graphs@.len(),
    {
        let n = self.graphs.len();
        let mut at = from;
        while at < n
            invariant
                self.wf(),
                bytes@ == self.src.spec_bytes(),
                n == self.graphs@.len(),
                from <= at <= n,
                word_end(bytes@, self.graphs@, from as int) == word_end(
                    bytes@,
                    self.graphs@,
                    at as int,
                ),
            decreases n - at,
        {
            if self.ends_word_at(bytes, at) {
                return at;
            }
            at = at + 1;
        }
        at
    }

    fn start_of(&self, bytes: &[u8], at: usize) -> (start: usize)
        requires
            self.wf(),
            bytes@ == self.src.spec_bytes(),
        ensures
            start == start_at(self.graphs@, self.src.spec_bytes().len(), at as int),
    {
        if at < self.graphs.len() {
            self.graphs[at].0
        } else {
            bytes.len()
        }
    }

    /// The next token, or the word that is none. After the last token the
    /// end of the text is given once, and nothing after it.
    pub fn next(&mut self) -> (r: Option<Result<Token<'s>, LexErr<'s>>>)
        requires
            old(self).wf(),
        ensures
            final(self).wf(),
            final(self).src == old(self).src,
            final(self).graphs@ == old(self).graphs@,
            final(self).state() == lex_spec(old(self).src, old(self).graphs@, old(self).state()).0,
            r == lex_spec(old(self).src, old(self).graphs@, old(self).state()).1,
            r is Some ==> final(self).left() < old(self).left(),
            r is Some ==> final(self).pos >= old(self).pos,
            r is Some && !final(self).eof ==> final(self).pos > old(self).pos,
            r is None ==> old(self).eof,
            final(self).eof ==> old(self).eof || (r matches Some(Ok(token)) && token.typ
                == TokenTyp::Eof),
            !final(self).eof ==> (r matches Some(Ok(token)) ==> token.typ != TokenTyp::Eof),
    {
        if self.eof {
            return None;
        }
        let bytes = self.src.as_bytes();
        let n = self.graphs.len();
        let total = bytes.len();
        let found = self.scan(bytes);
        proof {
            lemma_scan_bounds(bytes@, self.graphs@, self.pos as int);
        }
        match found {
            Found::End => {
                let span = Span {
                    line: self.line,
                    col_idx: total - self.line_start,
                    len: 0,
                    line_start: self.line_start,
                    src: self.src,
                };
                self.pos = n;
                self.eof = true;
                Some(Ok(Token { typ: TokenTyp::Eof, span }))
            },
            Found::Punct(at) => {
                proof {
                    lemma_segmented_ordered(self.graphs@, total as nat, self.pos as int, at as int);
                    if at + 1 < n {
                        assert(self.graphs@[at + 1].0 == cluster_end(self.graphs@[at as int]));
                    }
                }
                let typ = match self.punct_at(bytes, at) {
                    Some(typ) => typ,
                    None => TokenTyp::Newline,
                };
                let c = self.graphs[at];
                let end = self.start_of(bytes, at + 1);
                let span = Span {
                    line: self.line,
                    col_idx: c.0 - self.line_start,
                    len: end - c.0,
                    line_start: self.line_start,
                    src: self.src,
                };
                self.pos = at + 1;
                match typ {
                    TokenTyp::Newline => {
                        self.line = self.line + 1;
                        self.line_start = c.0 + 1;
                    },
                    _ => {},
                }
                Some(Ok(Token { typ, span }))
            },
            Found::Word(at) => {
                let to = self.word_end_at(bytes, at + 1);
                proof {
                    lemma_segmented_ordered(self.graphs@, total as nat, self.pos as int, at as int);
                    if to < n {
                        lemma_segmented_ordered(self.graphs@, total as nat, at as int, to as int);
                    }
                }
                let c = self.graphs[at];
                let end = self.start_of(bytes, to);
                let span = Span {
                    line: self.line,
                    col_idx: c.0 - self.line_start,
                    len: end - c.0,
                    line_start: self.line_start,
                    src: self.src,
                };
                self.pos = to;
                match Self::check_ctx(slice_subrange(bytes, c.0, end)) {
                    Ok(typ) => Some(Ok(Token { typ, span })),
                    Err(typ) => Some(Err(LexErr { typ, span })),
                }
            },
        }
    }
}

/// The number of bytes at the start of `text` that encode one character of
/// white space.
pub fn leading_space(text: &[u8]) -> (w: usize)
    ensures
        w == space_width(text@),
        w <= text@.len(),
        w <= 3,
{
    let n = text.len();
    if n >= 1 && ((0x09 <= text[0] && text[0] <= 0x0D) || text[0] == 0x20) {
        1
    } else if n >= 2 && text[0] == 0xC2 && (text[1] == 0x85 || text[1] == 0xA0) {
        2
    } else if n >= 3 && text[0] == 0xE1 && text[1] == 0x9A && text[2] == 0x80 {
        3
    } else if n >= 3 && text[0] == 0xE2 && text[1] == 0x80 && ((0x80 <= text[2] && text[2] <= 0x8A)
        || text[2] == 0xA8 || text[2] == 0xA9 || text[2] == 0xAF) {
        3
    } else if n >= 3 && text[0] == 0xE2 && text[1] == 0x81 && text[2] == 0x9F {
        3
    } else if n >= 3 && text[0] == 0xE3 && text[1] == 0x80 && text[2] == 0x80 {
        3
    } else {
        0
    }
}

/// Whether `text` is white space throughout.
pub fn is_space(text: &[u8]) -> (r: bool)
    ensures
        r == all_space(text@),
{
    let n = text.len();
    let mut at: usize = 0;
    proof {
        assert(text@.subrange(0, n as int) =~= text@);
    }
    while at < n
        invariant
            at <= n,
            n == text@.len(),
            all_space(text@) == all_space(text@.subrange(at as int, n as int)),
        decreases n - at,
    {
        let rest = slice_subrange(text, at, n);
        let w = leading_space(rest);
        if w == 0 {
            return false;
        }
        proof {
            assert(rest@.subrange(w as int, rest@.len() as int) =~= text@.subrange(
                at + w,
                n as int,
            ));
        }
        at = at + w;
    }
    true
}

} // verus!
