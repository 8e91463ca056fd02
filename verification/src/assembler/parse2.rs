//! The second pass: statements to operations, with labels resolved.

use vstd::prelude::*;
use vstd::slice::slice_subrange;
use vstd::string::StringSliceAdditionalSpecFns;
use crate::assembler::lex::{grapheme_spans, Cluster, LexState};
use crate::assembler::parse1::{
    data_spec, left_spec, stmt_spec, Label, Operand, OperandType, OperandVal, ParseErr,
    ParseErrTyp, Parser1, Stmt, XOp,
};
use crate::assembler::{bytes_eq, Span};
use crate::capability::{Capability, TaggedCapability};
use crate::ints::{gran_unsign, gran_unsign_spec, SAddr, SGran, UGran};
use crate::op::Op;

verus! {

/// The bytes between one operation and the next: a label is resolved to
/// the offset in bytes from the operation that names it to the operation
/// that follows the label.
pub const LABEL_SCALE: SAddr = 32;

/// The name that a span gives: the bytes that it covers; nothing where it
/// does not lie within its text.
pub open spec fn name_spec(span: Span) -> Seq<u8> {
    if span.in_bounds() {
        span.bytes()
    } else {
        Seq::empty()
    }
}

/// The name that a span gives.
pub fn name_of<'s>(span: Span<'s>) -> (name: &'s [u8])
    ensures
        name@ == name_spec(span),
{
    let bytes = span.src.as_bytes();
    let total = bytes.len();
    if span.line_start <= total && span.col_idx <= total - span.line_start && span.len <= total
        - span.line_start - span.col_idx {
        let start = span.line_start + span.col_idx;
        slice_subrange(bytes, start, start + span.len)
    } else {
        proof {
            assert(bytes@.subrange(0, 0) =~= Seq::<u8>::empty());
        }
        slice_subrange(bytes, 0, 0)
    }
}

/// The place of the first label from `from` on that is named as `name`.
pub open spec fn position_spec(labels: Seq<Label>, name: Span, from: int) -> Option<int>
    decreases labels.len() - from,
{
    if from < 0 || from >= labels.len() {
        None
    } else if name_spec(labels[from].id) == name_spec(name) {
        Some(from)
    } else {
        position_spec(labels, name, from + 1)
    }
}

/// The place of the first label that is named as `name`.
pub fn position(labels: &Vec<Label>, name: Span) -> (r: Option<usize>)
    ensures
        match r {
            Some(at) => position_spec(labels@, name, 0) == Some(at as int) && at < labels@.len(),
            None => position_spec(labels@, name, 0) is None,
        },
{
    let wanted = name_of(name);
    let n = labels.len();
    let mut at: usize = 0;
    while at < n
        invariant
            at <= n,
            n == labels@.len(),
            wanted@ == name_spec(name),
            position_spec(labels@, name, 0) == position_spec(labels@, name, at as int),
        decreases n - at,
    {
        if bytes_eq(name_of(labels[at].id), wanted) {
            return Some(at);
        }
        at = at + 1;
    }
    None
}

/// What the first pass leaves: the operations, the labels, and what was
/// wrong, each in the order of the source text.
pub struct Pass1<'s> {
    pub xops: Seq<XOp<'s>>,
    pub labels: Seq<Label<'s>>,
    pub errs: Seq<ParseErr<'s>>,
}

impl<'s> Pass1<'s> {
    /// Nothing read yet.
    pub open spec fn empty() -> Pass1<'s> {
        Pass1 { xops: Seq::empty(), labels: Seq::empty(), errs: Seq::empty() }
    }

    /// What is left after one more statement, or error, has been read. An
    /// operation is kept. A label is kept under its name: a label that was
    /// defined before is an error, and the later definition takes the
    /// place of the earlier.
    pub open spec fn with(self, item: Result<Stmt<'s>, ParseErr<'s>>) -> Pass1<'s> {
        match item {
            Ok(Stmt::Op(xop)) => Pass1 { xops: self.xops.push(xop), ..self },
            Ok(Stmt::Label(label)) => match position_spec(self.labels, label.id, 0) {
                Some(at) => Pass1 {
                    xops: self.xops,
                    labels: self.labels.update(at, label),
                    errs: self.errs.push(
                        ParseErr {
                            typ: ParseErrTyp::LabelRedef { first_def: self.labels[at].id },
                            span: label.id,
                        },
                    ),
                },
                None => Pass1 { labels: self.labels.push(label), ..self },
            },
            Err(e) => Pass1 { errs: self.errs.push(e), ..self },
        }
    }
}

/// What the first pass leaves of the text from where the lexer stands,
/// after what it has left before.
pub open spec fn collect_spec<'s>(
    src: &'s str,
    clusters: Seq<Cluster>,
    st: LexState,
    op_idx: usize,
    acc: Pass1<'s>,
) -> Pass1<'s>
    decreases left_spec(clusters, st),
{
    let step = stmt_spec(src, clusters, st, op_idx);
    match step.1 {
        None => acc,
        Some(item) => if left_spec(clusters, step.0) < left_spec(clusters, st) {
            collect_spec(
                src,
                clusters,
                step.0,
                Parser1::counted(op_idx, step.1) as usize,
                acc.with(item),
            )
        } else {
            acc
        },
    }
}

/// What the first pass leaves of a text whose grapheme clusters are
/// `clusters`.
pub open spec fn pass1_spec<'s>(src: &'s str, clusters: Seq<Cluster>) -> Pass1<'s> {
    collect_spec(
        src,
        clusters,
        LexState { pos: 0, line: 0, line_start: 0, eof: false },
        0,
        Pass1::empty(),
    )
}

/// The grain of a label operand of the operation at `cur_idx`: the offset
/// in bytes to the operation that follows the label, where a signed
/// address can hold the index of either operation and the offset.
pub open spec fn offset_spec<'s>(label: Label<'s>, cur_idx: int, lref: Span<'s>) -> Result<
    TaggedCapability,
    ParseErr<'s>,
> {
    let offset = (label.op_idx - cur_idx) * 32;
    if label.op_idx <= SAddr::MAX && cur_idx <= SAddr::MAX && SAddr::MIN <= offset
        <= SAddr::MAX {
        Ok(data_spec(gran_unsign_spec(offset as SGran) as UGran))
    } else {
        Err(ParseErr { typ: ParseErrTyp::LabelOffsetOverflow, span: lref })
    }
}

/// The grain of an operand of the operation at `cur_idx`: what the
/// operand holds, and for the name of a label its offset. A slot that is
/// not used holds an invalid capability.
pub open spec fn grain_spec<'s>(labels: Seq<Label<'s>>, operand: Operand<'s>, cur_idx: int)
    -> Result<TaggedCapability, ParseErr<'s>> {
    match operand.typ {
        OperandType::Unused => Ok(
            TaggedCapability { capa: Capability::invalid_spec(), valid: false },
        ),
        _ => match operand.val {
            Some(OperandVal::Known(val)) => Ok(val),
            Some(OperandVal::Ref(lref)) => match position_spec(labels, lref, 0) {
                Some(at) => offset_spec(labels[at], cur_idx, lref),
                None => Err(ParseErr { typ: ParseErrTyp::LabelUndef, span: lref }),
            },
            None => Ok(TaggedCapability { capa: Capability::invalid_spec(), valid: false }),
        },
    }
}

/// The operation that the operation at `cur_idx` of the source text
/// resolves to, or the first error among its operands.
pub open spec fn resolve_spec<'s>(labels: Seq<Label<'s>>, xop: XOp<'s>, cur_idx: int) -> Result<
    Op,
    ParseErr<'s>,
> {
    match grain_spec(labels, xop.op1, cur_idx) {
        Err(e) => Err(e),
        Ok(op1) => match grain_spec(labels, xop.op2, cur_idx) {
            Err(e) => Err(e),
            Ok(op2) => match grain_spec(labels, xop.op3, cur_idx) {
                Err(e) => Err(e),
                Ok(op3) => Ok(Op { kind: xop.kind, op1, op2, op3 }),
            },
        },
    }
}

/// The second pass of the assembler: first what was wrong in the text,
/// the last error first; then the operations, one at a time.
pub struct Parser2<'s> {
    pub xops: Vec<XOp<'s>>,
    pub next_idx: usize,
    pub labels: Vec<Label<'s>>,
    pub errs: Vec<ParseErr<'s>>,
}

impl<'s> Parser2<'s> {
    /// Whether the parser has passed no more operations than there are.
    pub open spec fn wf(self) -> bool {
        self.next_idx <= self.xops@.len()
    }

    /// Reads the whole of `s` in the first pass.
    pub fn new(s: &'s str) -> (parser: Self)
        ensures
            parser.wf(),
            parser.next_idx == 0,
            parser.xops@ == pass1_spec(s, grapheme_spans(s@)).xops,
            parser.labels@ == pass1_spec(s, grapheme_spans(s@)).labels,
            parser.errs@ == pass1_spec(s, grapheme_spans(s@)).errs,
    {
        Self::collect(Parser1::new(s))
    }

    /// Reads to its end the text that `pass1` stands at the start of.
    pub fn collect(pass1: Parser1<'s>) -> (parser: Self)
        requires
            pass1.wf(),
            pass1.lexer.state() == (LexState { pos: 0, line: 0, line_start: 0, eof: false }),
            pass1.op_idx == 0,
        ensures
            parser.wf(),
            parser.next_idx == 0,
            parser.xops@ == pass1_spec(pass1.lexer.src, pass1.lexer.graphs@).xops,
            parser.labels@ == pass1_spec(pass1.lexer.src, pass1.lexer.graphs@).labels,
            parser.errs@ == pass1_spec(pass1.lexer.src, pass1.lexer.graphs@).errs,
    {
        let mut pass1 = pass1;
        let mut xops: Vec<XOp<'s>> = Vec::new();
        let mut labels: Vec<Label<'s>> = Vec::new();
        let mut errs: Vec<ParseErr<'s>> = Vec::new();
        let ghost src = pass1.lexer.src;
        let ghost clusters = pass1.lexer.graphs@;
        let mut done = false;
        while !done
            invariant
                pass1.wf(),
                pass1.lexer.src == src,
                pass1.lexer.graphs@ == clusters,
                done ==> pass1_spec(src, clusters) == (Pass1 {
                    xops: xops@,
                    labels: labels@,
                    errs: errs@,
                }),
                !done ==> pass1_spec(src, clusters) == collect_spec(
                    src,
                    clusters,
                    pass1.lexer.state(),
                    pass1.op_idx,
                    Pass1 { xops: xops@, labels: labels@, errs: errs@ },
                ),
            decreases
                    if done {
                        0
                    } else {
                        1 + pass1.lexer.left()
                    },
        {
            let ghost acc = Pass1 { xops: xops@, labels: labels@, errs: errs@ };
            let ghost before = pass1;
            let item = pass1.next();
            proof {
                assert(left_spec(clusters, pass1.lexer.state()) == pass1.lexer.left());
                assert(left_spec(clusters, before.lexer.state()) == before.lexer.left());
            }
            match item {
                None => {
                    done = true;
                },
                Some(Ok(Stmt::Op(xop))) => {
                    xops.push(xop);
                },
                Some(Ok(Stmt::Label(label))) => {
                    match position(&labels, label.id) {
                        Some(at) => {
                            let old_label = labels[at];
                            labels.set(at, label);
                            errs.push(
                                ParseErr {
                                    typ: ParseErrTyp::LabelRedef { first_def: old_label.id },
                                    span: label.id,
                                },
                            );
                        },
                        None => {
                            labels.push(label);
                        },
                    }
                },
                Some(Err(err)) => {
                    errs.push(err);
                },
            }
        }
        Parser2 { xops, next_idx: 0, labels, errs }
    }

    fn grain(&self, operand: Operand<'s>, cur_idx: usize) -> (r: Result<
        TaggedCapability,
        ParseErr<'s>,
    >)
        ensures
            r == grain_spec(self.labels@, operand, cur_idx as int),
    {
        match operand.typ {
            OperandType::Unused => Ok(TaggedCapability::invalid()),
            _ => match operand.val {
                Some(OperandVal::Known(val)) => Ok(val),
                Some(OperandVal::Ref(lref)) => match position(&self.labels, lref) {
                    Some(at) => {
                        let label = self.labels[at];
                        let overflow = ParseErr {
                            typ: ParseErrTyp::LabelOffsetOverflow,
                            span: lref,
                        };
                        if label.op_idx > 0x7FFF || cur_idx > 0x7FFF {
                            return Err(overflow);
                        }
                        let distance: i32 = label.op_idx as i32 - cur_idx as i32;
                        let offset: i32 = distance * 32;
                        if offset < -0x8000 || offset > 0x7FFF {
                            return Err(overflow);
                        }
                        Ok(TaggedCapability::from_ugran(gran_unsign(offset as SGran)))
                    },
                    None => Err(ParseErr { typ: ParseErrTyp::LabelUndef, span: lref }),
                },
                None => Ok(TaggedCapability::invalid()),
            },
        }
    }

    fn next_inner(&mut self) -> (r: Option<Result<Op, ParseErr<'s>>>)
        requires
            old(self).wf(),
        ensures
            final(self).wf(),
            final(self).xops@ == old(self).xops@,
            final(self).labels@ == old(self).labels@,
            final(self).errs@ == old(self).errs@,
            old(self).next_idx < old(self).xops@.len() ==> final(self).next_idx == old(self).next_idx + 1 && r == Some(
                resolve_spec(
                    old(self).labels@,
                    old(self).xops@[old(self).next_idx as int],
                    old(self).next_idx as int,
                ),
            ),
            old(self).next_idx >= old(self).xops@.len() ==> final(self).next_idx == old(self).next_idx && r is None,
    {
        if self.next_idx >= self.xops.len() {
            return None;
        }
        let cur_op_idx = self.next_idx;
        let xop = self.xops[cur_op_idx];
        self.next_idx = self.next_idx + 1;
        let op1 = match self.grain(xop.op1, cur_op_idx) {
            Ok(v) => v,
            Err(e) => {
                return Some(Err(e));
            },
        };
        let op2 = match self.grain(xop.op2, cur_op_idx) {
            Ok(v) => v,
            Err(e) => {
                return Some(Err(e));
            },
        };
        let op3 = match self.grain(xop.op3, cur_op_idx) {
            Ok(v) => v,
            Err(e) => {
                return Some(Err(e));
            },
        };
        Some(Ok(Op { kind: xop.kind, op1, op2, op3 }))
    }

    /// The next of what the parser gives: while errors of the first pass
    /// are left, the last of them; then the next operation, its labels
    /// resolved, or what is wrong with it; nothing after the last
    /// operation.
    pub fn next(&mut self) -> (r: Option<Result<Op, ParseErr<'s>>>)
        requires
            old(self).wf(),
        ensures
            final(self).wf(),
            final(self).xops@ == old(self).xops@,
            final(self).labels@ == old(self).labels@,
            old(self).errs@.len() > 0 ==> r == Some(
                Err::<Op, ParseErr<'s>>(old(self).errs@.last()),
            ) && final(self).errs@ == old(self).errs@.drop_last() && final(self).next_idx == old(self).next_idx,
            old(self).errs@.len() == 0 && old(self).next_idx < old(self).xops@.len() ==> final(self).errs@ == old(self).errs@ && final(self).next_idx == old(self).next_idx + 1 && r
                == Some(
                resolve_spec(
                    old(self).labels@,
                    old(self).xops@[old(self).next_idx as int],
                    old(self).next_idx as int,
                ),
            ),
            old(self).errs@.len() == 0 && old(self).next_idx >= old(self).xops@.len() ==> final(self).errs@ == old(self).errs@ && final(self).next_idx == old(self).next_idx && r is None,
    {
        match self.errs.pop() {
            Some(err) => Some(Err(err)),
            None => self.next_inner(),
        }
    }
}

} // verus!
