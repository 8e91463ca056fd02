//! The first pass: tokens to statements.

use vstd::prelude::*;
use vstd::string::StringSliceAdditionalSpecFns;
use crate::assembler::lex::{
    lex_spec, Cluster, LexErr, LexErrTyp, LexState, Lexer, Token, TokenTyp,
};
use crate::assembler::Span;
use crate::capability::{cap_decode, TaggedCapability};
use crate::ints::UGran;
use crate::op::OpKind;

verus! {

/// What went wrong in the source text, and where.
#[derive(Clone, Copy, Debug, PartialEq, Eq)]
pub struct ParseErr<'s> {
    pub typ: ParseErrTyp<'s>,
    pub span: Span<'s>,
}

/// What went wrong in the source text.
#[derive(Clone, Copy, Debug, PartialEq, Eq)]
#[allow(inconsistent_fields)]
pub enum ParseErrTyp<'s> {
    /// A word that is no token.
    Lex(LexErrTyp),
    ExpectedTyp { expected: TokenTyp, found: TokenTyp },
    ExpectedClass { expected: TokenClass, found: TokenTyp },
    /// A statement starts with an operation or with a label.
    InvalidStmtStart { found: TokenTyp },
    /// The token can be no operand.
    InvalidOperand { found: TokenTyp },
    OperandTypeMismatch { expected: OperandType, found: OperandType },
    /// The label was defined before.
    LabelRedef { first_def: Span<'s> },
    /// No such label.
    LabelUndef,
    /// The label is too far away for a signed address to tell.
    LabelOffsetOverflow,
}

/// The classes of token.
#[derive(Clone, Copy, Debug, PartialEq, Eq, Structural)]
pub enum TokenClass {
    Op,
    Register,
    Syscall,
    Literal,
    Identifier,
}

impl TokenClass {
    /// The name of the class.
    pub open spec fn display_spec(self) -> Seq<char> {
        match self {
            TokenClass::Op => "operation"@,
            TokenClass::Register => "register"@,
            TokenClass::Syscall => "syscall"@,
            TokenClass::Literal => "literal"@,
            TokenClass::Identifier => "identifier"@,
        }
    }

    /// The name of the class.
    pub fn display(self) -> (s: &'static str)
        ensures
            s@ == self.display_spec(),
    {
        match self {
            TokenClass::Op => "operation",
            TokenClass::Register => "register",
            TokenClass::Syscall => "syscall",
            TokenClass::Literal => "literal",
            TokenClass::Identifier => "identifier",
        }
    }
}

impl TokenTyp {
    /// The class of the token.
    pub open spec fn classify_spec(self) -> Option<TokenClass> {
        match self {
            TokenTyp::Op(_) => Some(TokenClass::Op),
            TokenTyp::Register(_) => Some(TokenClass::Register),
            TokenTyp::Syscall(_) => Some(TokenClass::Syscall),
            TokenTyp::UnsignedInt(_) => Some(TokenClass::Literal),
            TokenTyp::Identifier => Some(TokenClass::Identifier),
            TokenTyp::Comma | TokenTyp::Colon | TokenTyp::Newline | TokenTyp::Eof => None,
        }
    }

    /// The class of the token, if it has one.
    pub fn classify(self) -> (r: Option<TokenClass>)
        ensures
            r == self.classify_spec(),
    {
        match self {
            TokenTyp::Op(_) => Some(TokenClass::Op),
            TokenTyp::Register(_) => Some(TokenClass::Register),
            TokenTyp::Syscall(_) => Some(TokenClass::Syscall),
            TokenTyp::UnsignedInt(_) => Some(TokenClass::Literal),
            TokenTyp::Identifier => Some(TokenClass::Identifier),
            TokenTyp::Comma | TokenTyp::Colon | TokenTyp::Newline | TokenTyp::Eof => None,
        }
    }
}

/// What an operand is.
#[derive(Clone, Copy, Debug, PartialEq, Eq, Structural)]
pub enum OperandType {
    Register,
    Immediate,
    Label,
    Unused,
}

impl OperandType {
    /// The name of the type of an operand that is used.
    pub fn display(self) -> (s: &'static str)
        requires
            self != OperandType::Unused,
        ensures
            s@ == match self {
                OperandType::Register => "register"@,
                OperandType::Immediate => "immediate"@,
                _ => "label"@,
            },
    {
        match self {
            OperandType::Register => "register",
            OperandType::Immediate => "immediate",
            _ => "label",
        }
    }
}

/// What an operand holds: its grain, or the name of a label yet to be
/// resolved.
#[derive(Clone, Copy, Debug, PartialEq, Eq)]
pub enum OperandVal<'s> {
    Known(TaggedCapability),
    Ref(Span<'s>),
}

impl<'s> OperandVal<'s> {
    /// The grain of an operand that is known.
    pub fn unwrap(self) -> (val: TaggedCapability)
        requires
            self is Known,
        ensures
            self == OperandVal::Known(val),
    {
        match self {
            OperandVal::Known(val) => val,
            OperandVal::Ref(_) => TaggedCapability::invalid(),
        }
    }
}

/// An operand of an operation in source text.
#[derive(Clone, Copy, Debug, PartialEq, Eq)]
pub struct Operand<'s> {
    pub typ: OperandType,
    pub val: Option<OperandVal<'s>>,
}

impl<'s> Operand<'s> {
    /// The operand slot that an operation does not use.
    pub open spec fn unused_spec() -> Operand<'s> {
        Operand { typ: OperandType::Unused, val: None }
    }

    /// The operand slot that an operation does not use.
    pub fn unused() -> (o: Operand<'s>)
        ensures
            o == Self::unused_spec(),
    {
        Operand { typ: OperandType::Unused, val: None }
    }
}

/// A label: its name, and the index of the operation that follows it.
#[derive(Clone, Copy, Debug, PartialEq, Eq)]
pub struct Label<'s> {
    pub id: Span<'s>,
    pub op_idx: usize,
}

/// An operation in source text, its labels not yet resolved.
#[derive(Clone, Copy, Debug, PartialEq, Eq)]
pub struct XOp<'s> {
    pub kind: OpKind,
    pub op1: Operand<'s>,
    pub op2: Operand<'s>,
    pub op3: Operand<'s>,
}

/// A statement.
#[derive(Clone, Copy, Debug, PartialEq, Eq)]
pub enum Stmt<'s> {
    Label(Label<'s>),
    Op(XOp<'s>),
}

/// The types of the operands that an operation takes, in order.
pub open spec fn type_signature_spec(op: OpKind) -> Seq<Option<OperandType>> {
    match op {
        OpKind::Nop => seq![None, None, None],
        OpKind::CGetAddr => seq![Some(OperandType::Register), Some(OperandType::Register), None],
        OpKind::CSetAddr => seq![Some(OperandType::Register), Some(OperandType::Register), None],
        OpKind::CGetBound => seq![Some(OperandType::Register), Some(OperandType::Register), Some(OperandType::Register)],
        OpKind::CSetBound => seq![Some(OperandType::Register), Some(OperandType::Register), Some(OperandType::Register)],
        OpKind::CGetPerm => seq![Some(OperandType::Register), Some(OperandType::Register), None],
        OpKind::CSetPerm => seq![Some(OperandType::Register), Some(OperandType::Register), None],
        OpKind::CGetValid => seq![Some(OperandType::Register), Some(OperandType::Register), None],
        OpKind::CGetType => seq![Some(OperandType::Register), Some(OperandType::Register), None],
        OpKind::CSeal => seq![Some(OperandType::Register), Some(OperandType::Register), Some(OperandType::Register)],
        OpKind::CUnseal => seq![Some(OperandType::Register), Some(OperandType::Register), Some(OperandType::Register)],
        OpKind::Cpy => seq![Some(OperandType::Register), Some(OperandType::Register), None],
        OpKind::LoadI => seq![Some(OperandType::Register), Some(OperandType::Immediate), None],
        OpKind::LoadU8 => seq![Some(OperandType::Register), Some(OperandType::Register), None],
        OpKind::LoadU16 => seq![Some(OperandType::Register), Some(OperandType::Register), None],
        OpKind::LoadU32 => seq![Some(OperandType::Register), Some(OperandType::Register), None],
        OpKind::LoadU64 => seq![Some(OperandType::Register), Some(OperandType::Register), None],
        OpKind::LoadC => seq![Some(OperandType::Register), Some(OperandType::Register), None],
        OpKind::Store8 => seq![Some(OperandType::Register), Some(OperandType::Register), None],
        OpKind::Store16 => seq![Some(OperandType::Register), Some(OperandType::Register), None],
        OpKind::Store32 => seq![Some(OperandType::Register), Some(OperandType::Register), None],
        OpKind::Store64 => seq![Some(OperandType::Register), Some(OperandType::Register), None],
        OpKind::StoreC => seq![Some(OperandType::Register), Some(OperandType::Register), None],
        OpKind::AddI => seq![Some(OperandType::Register), Some(OperandType::Register), Some(OperandType::Immediate)],
        OpKind::Add => seq![Some(OperandType::Register), Some(OperandType::Register), Some(OperandType::Register)],
        OpKind::Sub => seq![Some(OperandType::Register), Some(OperandType::Register), Some(OperandType::Register)],
        OpKind::SltsI => seq![Some(OperandType::Register), Some(OperandType::Register), Some(OperandType::Immediate)],
        OpKind::SltuI => seq![Some(OperandType::Register), Some(OperandType::Register), Some(OperandType::Immediate)],
        OpKind::Slts => seq![Some(OperandType::Register), Some(OperandType::Register), Some(OperandType::Register)],
        OpKind::Sltu => seq![Some(OperandType::Register), Some(OperandType::Register), Some(OperandType::Register)],
        OpKind::XorI => seq![Some(OperandType::Register), Some(OperandType::Register), Some(OperandType::Immediate)],
        OpKind::Xor => seq![Some(OperandType::Register), Some(OperandType::Register), Some(OperandType::Register)],
        OpKind::OrI => seq![Some(OperandType::Register), Some(OperandType::Register), Some(OperandType::Immediate)],
        OpKind::Or => seq![Some(OperandType::Register), Some(OperandType::Register), Some(OperandType::Register)],
        OpKind::AndI => seq![Some(OperandType::Register), Some(OperandType::Register), Some(OperandType::Immediate)],
        OpKind::And => seq![Some(OperandType::Register), Some(OperandType::Register), Some(OperandType::Register)],
        OpKind::SllI => seq![Some(OperandType::Register), Some(OperandType::Register), Some(OperandType::Immediate)],
        OpKind::Sll => seq![Some(OperandType::Register), Some(OperandType::Register), Some(OperandType::Register)],
        OpKind::SrlI => seq![Some(OperandType::Register), Some(OperandType::Register), Some(OperandType::Immediate)],
        OpKind::Srl => seq![Some(OperandType::Register), Some(OperandType::Register), Some(OperandType::Register)],
        OpKind::SraI => seq![Some(OperandType::Register), Some(OperandType::Register), Some(OperandType::Immediate)],
        OpKind::Sra => seq![Some(OperandType::Register), Some(OperandType::Register), Some(OperandType::Register)],
        OpKind::Jal => seq![Some(OperandType::Register), Some(OperandType::Label), None],
        OpKind::Jalr => seq![Some(OperandType::Register), Some(OperandType::Register), Some(OperandType::Label)],
        OpKind::Beq => seq![Some(OperandType::Register), Some(OperandType::Register), Some(OperandType::Label)],
        OpKind::Bne => seq![Some(OperandType::Register), Some(OperandType::Register), Some(OperandType::Label)],
        OpKind::Blts => seq![Some(OperandType::Register), Some(OperandType::Register), Some(OperandType::Label)],
        OpKind::Bges => seq![Some(OperandType::Register), Some(OperandType::Register), Some(OperandType::Label)],
        OpKind::Bltu => seq![Some(OperandType::Register), Some(OperandType::Register), Some(OperandType::Label)],
        OpKind::Bgeu => seq![Some(OperandType::Register), Some(OperandType::Register), Some(OperandType::Label)],
        OpKind::Syscall => seq![None, None, None],
    }
}

/// The types of the operands that an operation takes, in order; `None` in
/// the slots that it does not use.
pub fn type_signature(op: OpKind) -> (sig: [Option<OperandType>; 3])
    ensures
        sig@ == type_signature_spec(op),
        forall|i: int| 0 <= i < 3 ==> (sig@[i] is Some <==> i < op.operand_count_spec()),
{
    let sig = match op {
        OpKind::Nop => [None, None, None],
        OpKind::CGetAddr => [Some(OperandType::Register), Some(OperandType::Register), None],
        OpKind::CSetAddr => [Some(OperandType::Register), Some(OperandType::Register), None],
        OpKind::CGetBound => [Some(OperandType::Register), Some(OperandType::Register), Some(OperandType::Register)],
        OpKind::CSetBound => [Some(OperandType::Register), Some(OperandType::Register), Some(OperandType::Register)],
        OpKind::CGetPerm => [Some(OperandType::Register), Some(OperandType::Register), None],
        OpKind::CSetPerm => [Some(OperandType::Register), Some(OperandType::Register), None],
        OpKind::CGetValid => [Some(OperandType::Register), Some(OperandType::Register), None],
        OpKind::CGetType => [Some(OperandType::Register), Some(OperandType::Register), None],
        OpKind::CSeal => [Some(OperandType::Register), Some(OperandType::Register), Some(OperandType::Register)],
        OpKind::CUnseal => [Some(OperandType::Register), Some(OperandType::Register), Some(OperandType::Register)],
        OpKind::Cpy => [Some(OperandType::Register), Some(OperandType::Register), None],
        OpKind::LoadI => [Some(OperandType::Register), Some(OperandType::Immediate), None],
        OpKind::LoadU8 => [Some(OperandType::Register), Some(OperandType::Register), None],
        OpKind::LoadU16 => [Some(OperandType::Register), Some(OperandType::Register), None],
        OpKind::LoadU32 => [Some(OperandType::Register), Some(OperandType::Register), None],
        OpKind::LoadU64 => [Some(OperandType::Register), Some(OperandType::Register), None],
        OpKind::LoadC => [Some(OperandType::Register), Some(OperandType::Register), None],
        OpKind::Store8 => [Some(OperandType::Register), Some(OperandType::Register), None],
        OpKind::Store16 => [Some(OperandType::Register), Some(OperandType::Register), None],
        OpKind::Store32 => [Some(OperandType::Register), Some(OperandType::Register), None],
        OpKind::Store64 => [Some(OperandType::Register), Some(OperandType::Register), None],
        OpKind::StoreC => [Some(OperandType::Register), Some(OperandType::Register), None],
        OpKind::AddI => [Some(OperandType::Register), Some(OperandType::Register), Some(OperandType::Immediate)],
        OpKind::Add => [Some(OperandType::Register), Some(OperandType::Register), Some(OperandType::Register)],
        OpKind::Sub => [Some(OperandType::Register), Some(OperandType::Register), Some(OperandType::Register)],
        OpKind::SltsI => [Some(OperandType::Register), Some(OperandType::Register), Some(OperandType::Immediate)],
        OpKind::SltuI => [Some(OperandType::Register), Some(OperandType::Register), Some(OperandType::Immediate)],
        OpKind::Slts => [Some(OperandType::Register), Some(OperandType::Register), Some(OperandType::Register)],
        OpKind::Sltu => [Some(OperandType::Register), Some(OperandType::Register), Some(OperandType::Register)],
        OpKind::XorI => [Some(OperandType::Register), Some(OperandType::Register), Some(OperandType::Immediate)],
        OpKind::Xor => [Some(OperandType::Register), Some(OperandType::Register), Some(OperandType::Register)],
        OpKind::OrI => [Some(OperandType::Register), Some(OperandType::Register), Some(OperandType::Immediate)],
        OpKind::Or => [Some(OperandType::Register), Some(OperandType::Register), Some(OperandType::Register)],
        OpKind::AndI => [Some(OperandType::Register), Some(OperandType::Register), Some(OperandType::Immediate)],
        OpKind::And => [Some(OperandType::Register), Some(OperandType::Register), Some(OperandType::Register)],
        OpKind::SllI => [Some(OperandType::Register), Some(OperandType::Register), Some(OperandType::Immediate)],
        OpKind::Sll => [Some(OperandType::Register), Some(OperandType::Register), Some(OperandType::Register)],
        OpKind::SrlI => [Some(OperandType::Register), Some(OperandType::Register), Some(OperandType::Immediate)],
        OpKind::Srl => [Some(OperandType::Register), Some(OperandType::Register), Some(OperandType::Register)],
        OpKind::SraI => [Some(OperandType::Register), Some(OperandType::Register), Some(OperandType::Immediate)],
        OpKind::Sra => [Some(OperandType::Register), Some(OperandType::Register), Some(OperandType::Register)],
        OpKind::Jal => [Some(OperandType::Register), Some(OperandType::Label), None],
        OpKind::Jalr => [Some(OperandType::Register), Some(OperandType::Register), Some(OperandType::Label)],
        OpKind::Beq => [Some(OperandType::Register), Some(OperandType::Register), Some(OperandType::Label)],
        OpKind::Bne => [Some(OperandType::Register), Some(OperandType::Register), Some(OperandType::Label)],
        OpKind::Blts => [Some(OperandType::Register), Some(OperandType::Register), Some(OperandType::Label)],
        OpKind::Bges => [Some(OperandType::Register), Some(OperandType::Register), Some(OperandType::Label)],
        OpKind::Bltu => [Some(OperandType::Register), Some(OperandType::Register), Some(OperandType::Label)],
        OpKind::Bgeu => [Some(OperandType::Register), Some(OperandType::Register), Some(OperandType::Label)],
        OpKind::Syscall => [None, None, None],
    };
    proof {
        assert(sig@ =~= type_signature_spec(op));
    }
    sig
}

/// A grain as data.
pub open spec fn data_spec(val: UGran) -> TaggedCapability {
    TaggedCapability { capa: cap_decode(val), valid: false }
}

/// The error of the parser for a word that is no token.
pub open spec fn lex_err<'s>(e: LexErr<'s>) -> ParseErr<'s> {
    ParseErr { typ: ParseErrTyp::Lex(e.typ), span: e.span }
}

/// The lexer after its next step, and the token that the step gives. The
/// lexer has not reported the end of the text.
pub open spec fn token_spec<'s>(src: &'s str, clusters: Seq<Cluster>, st: LexState) -> (
    LexState,
    Result<Token<'s>, ParseErr<'s>>,
)
    recommends
        !st.eof,
{
    let step = lex_spec(src, clusters, st);
    (
        step.0,
        match step.1 {
            Some(Ok(token)) => Ok(token),
            Some(Err(e)) => Err(lex_err(e)),
            None => Err(arbitrary()),
        },
    )
}

/// Nothing where the token is of the type expected, else the error.
pub open spec fn expect_typ_spec<'s>(expect: TokenTyp, found: Token<'s>) -> Result<
    (),
    ParseErr<'s>,
> {
    if found.typ == expect {
        Ok(())
    } else {
        Err(
            ParseErr {
                typ: ParseErrTyp::ExpectedTyp { expected: expect, found: found.typ },
                span: found.span,
            },
        )
    }
}

/// The lexer after a token of the type `expect` has been read, and
/// whether one was.
pub open spec fn expect_next_spec<'s>(
    src: &'s str,
    clusters: Seq<Cluster>,
    st: LexState,
    expect: TokenTyp,
) -> (LexState, Result<(), ParseErr<'s>>) {
    let read = token_spec(src, clusters, st);
    (
        read.0,
        match read.1 {
            Ok(token) => expect_typ_spec(expect, token),
            Err(e) => Err(e),
        },
    )
}

/// What the operand that a token stands for holds: the number of a
/// register, the byte of a system call, the number itself, or the name of
/// a label.
pub open spec fn operand_val_spec<'s>(token: Token<'s>) -> OperandVal<'s> {
    match token.typ {
        TokenTyp::Register(reg) => OperandVal::Known(data_spec(reg.to_byte_spec() as UGran)),
        TokenTyp::Syscall(syscall) => OperandVal::Known(
            data_spec(syscall.to_byte_spec() as UGran),
        ),
        TokenTyp::UnsignedInt(num) => OperandVal::Known(data_spec(num)),
        _ => OperandVal::Ref(token.span),
    }
}

/// The lexer after an operand has been read, and the operand: a token
/// that can be an operand, then a comma unless the operand is the last,
/// and the operand must be of the type expected.
pub open spec fn operand_spec<'s>(
    src: &'s str,
    clusters: Seq<Cluster>,
    st: LexState,
    expected: OperandType,
    last: bool,
) -> (LexState, Result<Operand<'s>, ParseErr<'s>>) {
    let read = token_spec(src, clusters, st);
    match read.1 {
        Err(e) => (read.0, Err(e)),
        Ok(token) => match token.typ.operand_type_spec() {
            None => (
                read.0,
                Err(
                    ParseErr {
                        typ: ParseErrTyp::InvalidOperand { found: token.typ },
                        span: token.span,
                    },
                ),
            ),
            Some(found) => {
                let comma = if last {
                    (read.0, Ok(()))
                } else {
                    expect_next_spec(src, clusters, read.0, TokenTyp::Comma)
                };
                match comma.1 {
                    Err(e) => (comma.0, Err(e)),
                    Ok(_) => if found != expected {
                        (
                            comma.0,
                            Err(
                                ParseErr {
                                    typ: ParseErrTyp::OperandTypeMismatch { expected, found },
                                    span: token.span,
                                },
                            ),
                        )
                    } else {
                        (
                            comma.0,
                            Ok(Operand { typ: expected, val: Some(operand_val_spec(token)) }),
                        )
                    },
                }
            },
        },
    }
}

/// The lexer after the operand in the slot `slot` of an operation of the
/// kind `kind` has been read, and the operand; the unused operand, and the
/// lexer as it is, where the operation does not use the slot.
pub open spec fn slot_spec<'s>(
    src: &'s str,
    clusters: Seq<Cluster>,
    st: LexState,
    kind: OpKind,
    slot: int,
) -> (LexState, Result<Operand<'s>, ParseErr<'s>>) {
    match type_signature_spec(kind)[slot] {
        Some(typ) => operand_spec(
            src,
            clusters,
            st,
            typ,
            slot + 1 == kind.operand_count_spec(),
        ),
        None => (st, Ok(Operand::unused_spec())),
    }
}

/// The lexer after the operands of an operation and the end of its line
/// have been read, and the operation.
pub open spec fn operation_spec<'s>(
    src: &'s str,
    clusters: Seq<Cluster>,
    st: LexState,
    kind: OpKind,
) -> (LexState, Result<XOp<'s>, ParseErr<'s>>) {
    let first = slot_spec(src, clusters, st, kind, 0);
    match first.1 {
        Err(e) => (first.0, Err(e)),
        Ok(op1) => {
            let second = slot_spec(src, clusters, first.0, kind, 1);
            match second.1 {
                Err(e) => (second.0, Err(e)),
                Ok(op2) => {
                    let third = slot_spec(src, clusters, second.0, kind, 2);
                    match third.1 {
                        Err(e) => (third.0, Err(e)),
                        Ok(op3) => {
                            let end = expect_next_spec(src, clusters, third.0, TokenTyp::Newline);
                            match end.1 {
                                Err(e) => (end.0, Err(e)),
                                Ok(_) => (end.0, Ok(XOp { kind, op1, op2, op3 })),
                            }
                        },
                    }
                },
            }
        },
    }
}

/// The lexer after the colon of a label and the end of its line have been
/// read, and the label.
pub open spec fn label_spec<'s>(
    src: &'s str,
    clusters: Seq<Cluster>,
    st: LexState,
    id: Span<'s>,
    op_idx: usize,
) -> (LexState, Result<Label<'s>, ParseErr<'s>>) {
    let colon = expect_next_spec(src, clusters, st, TokenTyp::Colon);
    match colon.1 {
        Err(e) => (colon.0, Err(e)),
        Ok(_) => {
            let end = expect_next_spec(src, clusters, colon.0, TokenTyp::Newline);
            match end.1 {
                Err(e) => (end.0, Err(e)),
                Ok(_) => (end.0, Ok(Label { id, op_idx })),
            }
        },
    }
}

/// What is left for a lexer to do.
pub open spec fn left_spec(clusters: Seq<Cluster>, st: LexState) -> nat {
    (clusters.len() - st.pos + if st.eof {
        0nat
    } else {
        1nat
    }) as nat
}

/// The lexer after the empty lines before a statement have been passed,
/// and the token that starts the statement; nothing at the end of the
/// text.
pub open spec fn start_spec<'s>(src: &'s str, clusters: Seq<Cluster>, st: LexState) -> (
    LexState,
    Option<Result<Token<'s>, ParseErr<'s>>>,
)
    decreases left_spec(clusters, st),
{
    let step = lex_spec(src, clusters, st);
    match step.1 {
        None => (step.0, None),
        Some(Err(e)) => (step.0, Some(Err(lex_err(e)))),
        Some(Ok(token)) => match token.typ {
            TokenTyp::Eof => (step.0, None),
            TokenTyp::Newline => if left_spec(clusters, step.0) < left_spec(clusters, st) {
                start_spec(src, clusters, step.0)
            } else {
                (step.0, None)
            },
            _ => (step.0, Some(Ok(token))),
        },
    }
}

/// The lexer after a statement has been read, and the statement: an
/// operation with its operands, or a label. Nothing at the end of the
/// text.
#[verifier::opaque]
pub open spec fn stmt_spec<'s>(
    src: &'s str,
    clusters: Seq<Cluster>,
    st: LexState,
    op_idx: usize,
) -> (LexState, Option<Result<Stmt<'s>, ParseErr<'s>>>) {
    let start = start_spec(src, clusters, st);
    match start.1 {
        None => (start.0, None),
        Some(Err(e)) => (start.0, Some(Err(e))),
        Some(Ok(token)) => match token.typ {
            TokenTyp::Op(kind) => {
                let parsed = operation_spec(src, clusters, start.0, kind);
                (
                    parsed.0,
                    Some(
                        match parsed.1 {
                            Ok(xop) => Ok(Stmt::Op(xop)),
                            Err(e) => Err(e),
                        },
                    ),
                )
            },
            TokenTyp::Identifier => {
                let parsed = label_spec(src, clusters, start.0, token.span, op_idx);
                (
                    parsed.0,
                    Some(
                        match parsed.1 {
                            Ok(label) => Ok(Stmt::Label(label)),
                            Err(e) => Err(e),
                        },
                    ),
                )
            },
            found => (
                start.0,
                Some(
                    Err(
                        ParseErr {
                            typ: ParseErrTyp::InvalidStmtStart { found },
                            span: token.span,
                        },
                    ),
                ),
            ),
        },
    }
}

/// The first pass of the assembler: the statements of the source text, one
/// at a time.
pub struct Parser1<'s> {
    pub lexer: Lexer<'s>,
    pub op_idx: usize,
}

impl<'s> Parser1<'s> {
    /// Whether the parser stands in its text, and has counted no more
    /// operations than it has passed clusters.
    pub open spec fn wf(self) -> bool {
        &&& self.lexer.wf()
        &&& self.op_idx <= self.lexer.pos
    }

    /// A parser at the start of `src`.
    pub fn new(src: &'s str) -> (parser: Self)
        ensures
            parser.wf(),
            parser.lexer.src == src,
            parser.lexer.graphs@ == crate::assembler::lex::grapheme_spans(src@),
            parser.lexer.state() == (LexState { pos: 0, line: 0, line_start: 0, eof: false }),
            parser.op_idx == 0,
    {
        Parser1 { lexer: Lexer::new(src), op_idx: 0 }
    }

    /// A parser that reads its tokens from `lexer`.
    pub fn with_lexer(lexer: Lexer<'s>) -> (parser: Self)
        requires
            lexer.wf(),
            lexer.pos == 0,
        ensures
            parser.wf(),
            parser.lexer == lexer,
            parser.op_idx == 0,
    {
        Parser1 { lexer, op_idx: 0 }
    }

    fn expect_token(&mut self) -> (r: Result<Token<'s>, ParseErr<'s>>)
        requires
            old(self).lexer.wf(),
            !old(self).lexer.eof,
        ensures
            final(self).lexer.wf(),
            final(self).lexer.src == old(self).lexer.src,
            final(self).lexer.graphs@ == old(self).lexer.graphs@,
            final(self).op_idx == old(self).op_idx,
            final(self).lexer.pos >= old(self).lexer.pos,
            final(self).lexer.left() < old(self).lexer.left(),
            final(self).lexer.state() == token_spec(
                old(self).lexer.src,
                old(self).lexer.graphs@,
                old(self).lexer.state(),
            ).0,
            r == token_spec(
                old(self).lexer.src,
                old(self).lexer.graphs@,
                old(self).lexer.state(),
            ).1,
            (r is Ok && r->Ok_0.typ != TokenTyp::Eof) || r is Err ==> !final(self).lexer.eof,
            !final(self).lexer.eof ==> final(self).lexer.pos > old(self).lexer.pos,
    {
        match self.lexer.next() {
            Some(Ok(tok)) => Ok(tok),
            Some(Err(lex_err)) => Err(
                ParseErr { typ: ParseErrTyp::Lex(lex_err.typ), span: lex_err.span },
            ),
            None => Err(
                ParseErr {
                    typ: ParseErrTyp::LabelUndef,
                    span: Span { line: 0, col_idx: 0, len: 0, line_start: 0, src: self.lexer.src },
                },
            ),
        }
    }

    fn expect_typ(expect: TokenTyp, found: Token<'s>) -> (r: Result<(), ParseErr<'s>>)
        ensures
            r == expect_typ_spec(expect, found),
    {
        if found.typ == expect {
            Ok(())
        } else {
            Err(
                ParseErr {
                    typ: ParseErrTyp::ExpectedTyp { expected: expect, found: found.typ },
                    span: found.span,
                },
            )
        }
    }

    fn expect_next(&mut self, expect: TokenTyp) -> (r: Result<(), ParseErr<'s>>)
        requires
            old(self).lexer.wf(),
            !old(self).lexer.eof,
            expect != TokenTyp::Eof,
        ensures
            final(self).lexer.wf(),
            final(self).lexer.src == old(self).lexer.src,
            final(self).lexer.graphs@ == old(self).lexer.graphs@,
            final(self).op_idx == old(self).op_idx,
            final(self).lexer.pos >= old(self).lexer.pos,
            final(self).lexer.state() == expect_next_spec(
                old(self).lexer.src,
                old(self).lexer.graphs@,
                old(self).lexer.state(),
                expect,
            ).0,
            r == expect_next_spec(
                old(self).lexer.src,
                old(self).lexer.graphs@,
                old(self).lexer.state(),
                expect,
            ).1,
            r is Ok ==> !final(self).lexer.eof,
    {
        match self.expect_token() {
            Ok(token) => Self::expect_typ(expect, token),
            Err(e) => Err(e),
        }
    }

    fn expect_operand(&mut self, expected_typ: OperandType, last: bool) -> (r: Result<
        Operand<'s>,
        ParseErr<'s>,
    >)
        requires
            old(self).lexer.wf(),
            !old(self).lexer.eof,
        ensures
            final(self).lexer.wf(),
            final(self).lexer.src == old(self).lexer.src,
            final(self).lexer.graphs@ == old(self).lexer.graphs@,
            final(self).op_idx == old(self).op_idx,
            final(self).lexer.pos >= old(self).lexer.pos,
            final(self).lexer.state() == operand_spec(
                old(self).lexer.src,
                old(self).lexer.graphs@,
                old(self).lexer.state(),
                expected_typ,
                last,
            ).0,
            r == operand_spec(
                old(self).lexer.src,
                old(self).lexer.graphs@,
                old(self).lexer.state(),
                expected_typ,
                last,
            ).1,
            r is Ok ==> !final(self).lexer.eof,
    {
        let try_operand = match self.expect_token() {
            Ok(token) => token,
            Err(e) => {
                return Err(e);
            },
        };
        let operand_typ = match try_operand.typ.operand_type() {
            Some(typ) => typ,
            None => {
                return Err(
                    ParseErr {
                        typ: ParseErrTyp::InvalidOperand { found: try_operand.typ },
                        span: try_operand.span,
                    },
                );
            },
        };
        if !last {
            match self.expect_next(TokenTyp::Comma) {
                Ok(()) => {},
                Err(e) => {
                    return Err(e);
                },
            }
        }
        if operand_typ != expected_typ {
            return Err(
                ParseErr {
                    typ: ParseErrTyp::OperandTypeMismatch {
                        expected: expected_typ,
                        found: operand_typ,
                    },
                    span: try_operand.span,
                },
            );
        }
        let val = match try_operand.typ {
            TokenTyp::Register(reg) => OperandVal::Known(
                TaggedCapability::from_ugran(reg.to_byte() as UGran),
            ),
            TokenTyp::Syscall(syscall) => OperandVal::Known(
                TaggedCapability::from_ugran(syscall.to_byte() as UGran),
            ),
            TokenTyp::UnsignedInt(num) => OperandVal::Known(TaggedCapability::from_ugran(num)),
            _ => OperandVal::Ref(try_operand.span),
        };
        Ok(Operand { typ: expected_typ, val: Some(val) })
    }

    fn expect_slot(&mut self, kind: OpKind, slot: usize) -> (r: Result<Operand<'s>, ParseErr<'s>>)
        requires
            old(self).lexer.wf(),
            !old(self).lexer.eof,
            slot < 3,
        ensures
            final(self).lexer.wf(),
            final(self).lexer.src == old(self).lexer.src,
            final(self).lexer.graphs@ == old(self).lexer.graphs@,
            final(self).op_idx == old(self).op_idx,
            final(self).lexer.pos >= old(self).lexer.pos,
            final(self).lexer.state() == slot_spec(
                old(self).lexer.src,
                old(self).lexer.graphs@,
                old(self).lexer.state(),
                kind,
                slot as int,
            ).0,
            r == slot_spec(
                old(self).lexer.src,
                old(self).lexer.graphs@,
                old(self).lexer.state(),
                kind,
                slot as int,
            ).1,
            r is Ok ==> !final(self).lexer.eof,
    {
        let sig = type_signature(kind);
        let argc = kind.operand_count();
        match sig[slot] {
            Some(typ) => self.expect_operand(typ, slot + 1 == argc as usize),
            None => Ok(Operand::unused()),
        }
    }

    fn expect_label(&mut self, ident_span: Span<'s>) -> (r: Result<Label<'s>, ParseErr<'s>>)
        requires
            old(self).lexer.wf(),
            !old(self).lexer.eof,
        ensures
            final(self).lexer.wf(),
            final(self).lexer.src == old(self).lexer.src,
            final(self).lexer.graphs@ == old(self).lexer.graphs@,
            final(self).op_idx == old(self).op_idx,
            final(self).lexer.pos >= old(self).lexer.pos,
            final(self).lexer.state() == label_spec(
                old(self).lexer.src,
                old(self).lexer.graphs@,
                old(self).lexer.state(),
                ident_span,
                old(self).op_idx,
            ).0,
            r == label_spec(
                old(self).lexer.src,
                old(self).lexer.graphs@,
                old(self).lexer.state(),
                ident_span,
                old(self).op_idx,
            ).1,
    {
        match self.expect_next(TokenTyp::Colon) {
            Ok(()) => {},
            Err(e) => {
                return Err(e);
            },
        }
        match self.expect_next(TokenTyp::Newline) {
            Ok(()) => {},
            Err(e) => {
                return Err(e);
            },
        }
        Ok(Label { id: ident_span, op_idx: self.op_idx })
    }

    fn expect_operation(&mut self, op_kind: OpKind) -> (r: Result<XOp<'s>, ParseErr<'s>>)
        requires
            old(self).lexer.wf(),
            !old(self).lexer.eof,
        ensures
            final(self).lexer.wf(),
            final(self).lexer.src == old(self).lexer.src,
            final(self).lexer.graphs@ == old(self).lexer.graphs@,
            final(self).op_idx == old(self).op_idx,
            final(self).lexer.pos >= old(self).lexer.pos,
            final(self).lexer.state() == operation_spec(
                old(self).lexer.src,
                old(self).lexer.graphs@,
                old(self).lexer.state(),
                op_kind,
            ).0,
            r == operation_spec(
                old(self).lexer.src,
                old(self).lexer.graphs@,
                old(self).lexer.state(),
                op_kind,
            ).1,
    {
        let op1 = match self.expect_slot(op_kind, 0) {
            Ok(o) => o,
            Err(e) => {
                return Err(e);
            },
        };
        let op2 = match self.expect_slot(op_kind, 1) {
            Ok(o) => o,
            Err(e) => {
                return Err(e);
            },
        };
        let op3 = match self.expect_slot(op_kind, 2) {
            Ok(o) => o,
            Err(e) => {
                return Err(e);
            },
        };
        // an operation ends with its line
        match self.expect_next(TokenTyp::Newline) {
            Ok(()) => {},
            Err(e) => {
                return Err(e);
            },
        }
        Ok(XOp { kind: op_kind, op1, op2, op3 })
    }

    fn expect_start(&mut self) -> (r: Option<Result<Token<'s>, ParseErr<'s>>>)
        requires
            old(self).lexer.wf(),
        ensures
            final(self).lexer.wf(),
            final(self).lexer.src == old(self).lexer.src,
            final(self).lexer.graphs@ == old(self).lexer.graphs@,
            final(self).op_idx == old(self).op_idx,
            final(self).lexer.pos >= old(self).lexer.pos,
            final(self).lexer.state() == start_spec(
                old(self).lexer.src,
                old(self).lexer.graphs@,
                old(self).lexer.state(),
            ).0,
            r == start_spec(
                old(self).lexer.src,
                old(self).lexer.graphs@,
                old(self).lexer.state(),
            ).1,
            r is Some ==> !final(self).lexer.eof && final(self).lexer.pos > old(self).lexer.pos,
            r is None ==> final(self).lexer.eof,
    {
        loop
            invariant
                self.lexer.wf(),
                self.lexer.src == old(self).lexer.src,
                self.lexer.graphs@ == old(self).lexer.graphs@,
                self.op_idx == old(self).op_idx,
                self.lexer.pos >= old(self).lexer.pos,
                start_spec(
                    old(self).lexer.src,
                    old(self).lexer.graphs@,
                    old(self).lexer.state(),
                ) == start_spec(self.lexer.src, self.lexer.graphs@, self.lexer.state()),
            decreases self.lexer.left(),
        {
            let ghost before = self.lexer;
            match self.lexer.next() {
                None => {
                    return None;
                },
                Some(Err(lex_err)) => {
                    proof {
                        lemma_step_progress(before);
                    }
                    return Some(
                        Err(ParseErr { typ: ParseErrTyp::Lex(lex_err.typ), span: lex_err.span }),
                    );
                },
                Some(Ok(tok)) => {
                    proof {
                        lemma_step_progress(before);
                    }
                    match tok.typ {
                        TokenTyp::Newline => {},
                        TokenTyp::Eof => {
                            return None;
                        },
                        _ => {
                            return Some(Ok(tok));
                        },
                    }
                },
            }
        }
    }

    fn next_inner(&mut self) -> (r: Option<Result<Stmt<'s>, ParseErr<'s>>>)
        requires
            old(self).lexer.wf(),
        ensures
            final(self).lexer.wf(),
            final(self).lexer.src == old(self).lexer.src,
            final(self).lexer.graphs@ == old(self).lexer.graphs@,
            final(self).op_idx == old(self).op_idx,
            final(self).lexer.state() == stmt_spec(
                old(self).lexer.src,
                old(self).lexer.graphs@,
                old(self).lexer.state(),
                old(self).op_idx,
            ).0,
            r == stmt_spec(
                old(self).lexer.src,
                old(self).lexer.graphs@,
                old(self).lexer.state(),
                old(self).op_idx,
            ).1,
            r is Some ==> final(self).lexer.pos > old(self).lexer.pos,
            r is Some ==> final(self).lexer.left() < old(self).lexer.left(),
            r is None ==> final(self).lexer.eof,
    {
        reveal(stmt_spec);
        let try_start = match self.expect_start() {
            None => {
                return None;
            },
            Some(Err(e)) => {
                return Some(Err(e));
            },
            Some(Ok(tok)) => tok,
        };
        match try_start.typ {
            TokenTyp::Op(op_kind) => match self.expect_operation(op_kind) {
                Ok(xop) => Some(Ok(Stmt::Op(xop))),
                Err(e) => Some(Err(e)),
            },
            TokenTyp::Identifier => match self.expect_label(try_start.span) {
                Ok(label) => Some(Ok(Stmt::Label(label))),
                Err(e) => Some(Err(e)),
            },
            found => Some(
                Err(ParseErr { typ: ParseErrTyp::InvalidStmtStart { found }, span: try_start.span }),
            ),
        }
    }

    /// The operations counted after a statement has been read: one more
    /// after an operation.
    pub open spec fn counted(op_idx: usize, item: Option<Result<Stmt<'s>, ParseErr<'s>>>) -> int {
        match item {
            Some(Ok(Stmt::Op(_))) => op_idx + 1,
            _ => op_idx as int,
        }
    }

    /// The next statement, or what is wrong with it; nothing at the end of
    /// the text. After an error the parser goes on with the token that
    /// follows the one at which it stopped.
    pub fn next(&mut self) -> (r: Option<Result<Stmt<'s>, ParseErr<'s>>>)
        requires
            old(self).wf(),
        ensures
            final(self).wf(),
            final(self).lexer.src == old(self).lexer.src,
            final(self).lexer.graphs@ == old(self).lexer.graphs@,
            final(self).lexer.state() == stmt_spec(
                old(self).lexer.src,
                old(self).lexer.graphs@,
                old(self).lexer.state(),
                old(self).op_idx,
            ).0,
            r == stmt_spec(
                old(self).lexer.src,
                old(self).lexer.graphs@,
                old(self).lexer.state(),
                old(self).op_idx,
            ).1,
            final(self).op_idx == Self::counted(old(self).op_idx, r),
            r is Some ==> final(self).lexer.left() < old(self).lexer.left(),
            r is None ==> final(self).lexer.eof,
    {
        let item = self.next_inner();
        match item {
            Some(Ok(Stmt::Op(_))) => {
                self.op_idx = self.op_idx + 1;
            },
            _ => {},
        }
        item
    }
}

/// A step of the lexer that gives something leaves less to do; where it
/// does not report the end of the text, it passes a cluster.
pub proof fn lemma_step_progress(lexer: Lexer)
    requires
        lexer.wf(),
        !lexer.eof,
    ensures
        left_spec(lexer.graphs@, lex_spec(lexer.src, lexer.graphs@, lexer.state()).0) < left_spec(
            lexer.graphs@,
            lexer.state(),
        ),
        lex_spec(lexer.src, lexer.graphs@, lexer.state()).0.pos >= lexer.pos,
        !lex_spec(lexer.src, lexer.graphs@, lexer.state()).0.eof ==> lex_spec(
            lexer.src,
            lexer.graphs@,
            lexer.state(),
        ).0.pos > lexer.pos,
{
    let bytes = lexer.src.spec_bytes();
    crate::assembler::lex::lemma_scan_bounds(bytes, lexer.graphs@, lexer.pos as int);
    match crate::assembler::lex::scan_spec(bytes, lexer.graphs@, lexer.pos as int) {
        crate::assembler::lex::Scan::Word(at) => {
            crate::assembler::lex::lemma_word_end_bounds(bytes, lexer.graphs@, at + 1);
        },
        _ => {},
    }
}

} // verus!
