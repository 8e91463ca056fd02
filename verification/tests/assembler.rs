use fruticose::assembler::lex::{LexErr, LexErrTyp, Lexer, Token, TokenTyp};
use fruticose::assembler::parse1::{
    type_signature, Label, Operand, OperandType, OperandVal, ParseErr, ParseErrTyp, Parser1, Stmt,
    TokenClass, XOp,
};
use fruticose::assembler::parse2::Parser2;
use fruticose::assembler::Span;
use fruticose::capability::TaggedCapability;
use fruticose::op::{Op, OpKind};
use fruticose::registers::Register;
use fruticose::syscall::SyscallKind;

const EXIT: &str = "nop ; no operation yet\nloadi a0, SYS_EXIT\nsyscall\n";
const ADD: &str = "loadi t1, 23\nloadi t2, 47\nadd t0, t1, t2\n; t0 is now 70..\naddi t0, t0, 1\n; t0 is now 71..\n\nloadi a0, SYS_EXIT\nsyscall\n";
const CMP: &str = "loadi t1, 47\nloadi t2, 48\nbne t1, t2, NOT_SAME\njal zero, ARE_EQUAL\n\nNOT_SAME:\n loadi t0, 1\n jal zero, DONE\n\nARE_EQUAL:\n loadi t0, 0\n jal zero, DONE\n\nDONE:\n loadi a0, SYS_EXIT\n syscall\n";
const CRASH_3: &str = "loadi";

fn reg(r: Register) -> OperandVal<'static> {
    OperandVal::Known(TaggedCapability::from_ugran(u64::from(r.to_byte())))
}

fn known(typ: OperandType, val: OperandVal<'static>) -> Operand<'static> {
    Operand { typ, val: Some(val) }
}

fn imm(v: u64) -> Operand<'static> {
    known(OperandType::Immediate, OperandVal::Known(TaggedCapability::from_ugran(v)))
}

fn register(r: Register) -> Operand<'static> {
    known(OperandType::Register, reg(r))
}

fn label(src: &'static str, line: usize, col_idx: usize, len: usize, line_start: usize) -> Operand<'static> {
    known(
        OperandType::Label,
        OperandVal::Ref(Span { line, col_idx, len, line_start, src }),
    )
}

#[test]
fn test_exit_lex() {
    let src = EXIT;
    let mut lexer = Lexer::new(src);
    assert_eq!(
        lexer.next(),
        Some(Ok(Token {
            typ: TokenTyp::Op(OpKind::Nop),
            span: Span { line: 0, col_idx: 0, len: 3, line_start: 0, src },
        }))
    );
    assert_eq!(
        lexer.next(),
        Some(Ok(Token {
            typ: TokenTyp::Newline,
            span: Span { line: 0, col_idx: 22, len: 1, line_start: 0, src },
        }))
    );
    assert_eq!(
        lexer.next(),
        Some(Ok(Token {
            typ: TokenTyp::Op(OpKind::LoadI),
            span: Span { line: 1, col_idx: 0, len: 5, line_start: 23, src },
        }))
    );
    assert_eq!(
        lexer.next(),
        Some(Ok(Token {
            typ: TokenTyp::Register(Register::A0),
            span: Span { line: 1, col_idx: 6, len: 2, line_start: 23, src },
        }))
    );
    assert_eq!(
        lexer.next(),
        Some(Ok(Token {
            typ: TokenTyp::Comma,
            span: Span { line: 1, col_idx: 8, len: 1, line_start: 23, src },
        }))
    );
    assert_eq!(
        lexer.next(),
        Some(Ok(Token {
            typ: TokenTyp::Syscall(SyscallKind::Exit),
            span: Span { line: 1, col_idx: 10, len: 8, line_start: 23, src },
        }))
    );
    assert_eq!(
        lexer.next(),
        Some(Ok(Token {
            typ: TokenTyp::Newline,
            span: Span { line: 1, col_idx: 18, len: 1, line_start: 23, src },
        }))
    );
    assert_eq!(
        lexer.next(),
        Some(Ok(Token {
            typ: TokenTyp::Op(OpKind::Syscall),
            span: Span { line: 2, col_idx: 0, len: 7, line_start: 42, src },
        }))
    );
    assert_eq!(
        lexer.next(),
        Some(Ok(Token {
            typ: TokenTyp::Newline,
            span: Span { line: 2, col_idx: 7, len: 1, line_start: 42, src },
        }))
    );
    assert_eq!(
        lexer.next(),
        Some(Ok(Token {
            typ: TokenTyp::Eof,
            span: Span { line: 3, col_idx: 0, len: 0, line_start: 50, src },
        }))
    );
    assert_eq!(lexer.next(), None);
}

#[test]
fn tests_exit_lex() {
    let src = EXIT;
    let mut lexer = Lexer::new(src);
    assert_eq!(
        lexer.next(),
        Some(Ok(Token {
            typ: TokenTyp::Op(OpKind::Nop),
            span: Span { line: 0, col_idx: 0, len: 3, line_start: 0, src },
        }))
    );
    assert_eq!(
        lexer.next(),
        Some(Ok(Token {
            typ: TokenTyp::Newline,
            span: Span { line: 0, col_idx: 22, len: 1, line_start: 0, src },
        }))
    );
    assert_eq!(
        lexer.next(),
        Some(Ok(Token {
            typ: TokenTyp::Op(OpKind::LoadI),
            span: Span { line: 1, col_idx: 0, len: 5, line_start: 23, src },
        }))
    );
    assert_eq!(
        lexer.next(),
        Some(Ok(Token {
            typ: TokenTyp::Register(Register::A0),
            span: Span { line: 1, col_idx: 6, len: 2, line_start: 23, src },
        }))
    );
    assert_eq!(
        lexer.next(),
        Some(Ok(Token {
            typ: TokenTyp::Comma,
            span: Span { line: 1, col_idx: 8, len: 1, line_start: 23, src },
        }))
    );
    assert_eq!(
        lexer.next(),
        Some(Ok(Token {
            typ: TokenTyp::Syscall(SyscallKind::Exit),
            span: Span { line: 1, col_idx: 10, len: 8, line_start: 23, src },
        }))
    );
    assert_eq!(
        lexer.next(),
        Some(Ok(Token {
            typ: TokenTyp::Newline,
            span: Span { line: 1, col_idx: 18, len: 1, line_start: 23, src },
        }))
    );
    assert_eq!(
        lexer.next(),
        Some(Ok(Token {
            typ: TokenTyp::Op(OpKind::Syscall),
            span: Span { line: 2, col_idx: 0, len: 7, line_start: 42, src },
        }))
    );
    assert_eq!(
        lexer.next(),
        Some(Ok(Token {
            typ: TokenTyp::Newline,
            span: Span { line: 2, col_idx: 7, len: 1, line_start: 42, src },
        }))
    );
    assert_eq!(
        lexer.next(),
        Some(Ok(Token {
            typ: TokenTyp::Eof,
            span: Span { line: 3, col_idx: 0, len: 0, line_start: 50, src },
        }))
    );
    assert_eq!(lexer.next(), None);
}

#[test]
fn add_lex() {
    let src = ADD;
    let mut lexer = Lexer::new(src);
    assert_eq!(
        lexer.next(),
        Some(Ok(Token {
            typ: TokenTyp::Op(OpKind::LoadI),
            span: Span { line: 0, col_idx: 0, len: 5, line_start: 0, src },
        }))
    );
    assert_eq!(
        lexer.next(),
        Some(Ok(Token {
            typ: TokenTyp::Register(Register::T1),
            span: Span { line: 0, col_idx: 6, len: 2, line_start: 0, src },
        }))
    );
    assert_eq!(
        lexer.next(),
        Some(Ok(Token {
            typ: TokenTyp::Comma,
            span: Span { line: 0, col_idx: 8, len: 1, line_start: 0, src },
        }))
    );
    assert_eq!(
        lexer.next(),
        Some(Ok(Token {
            typ: TokenTyp::UnsignedInt(23),
            span: Span { line: 0, col_idx: 10, len: 2, line_start: 0, src },
        }))
    );
    assert_eq!(
        lexer.next(),
        Some(Ok(Token {
            typ: TokenTyp::Newline,
            span: Span { line: 0, col_idx: 12, len: 1, line_start: 0, src },
        }))
    );
    assert_eq!(
        lexer.next(),
        Some(Ok(Token {
            typ: TokenTyp::Op(OpKind::LoadI),
            span: Span { line: 1, col_idx: 0, len: 5, line_start: 13, src },
        }))
    );
    assert_eq!(
        lexer.next(),
        Some(Ok(Token {
            typ: TokenTyp::Register(Register::T2),
            span: Span { line: 1, col_idx: 6, len: 2, line_start: 13, src },
        }))
    );
    assert_eq!(
        lexer.next(),
        Some(Ok(Token {
            typ: TokenTyp::Comma,
            span: Span { line: 1, col_idx: 8, len: 1, line_start: 13, src },
        }))
    );
    assert_eq!(
        lexer.next(),
        Some(Ok(Token {
            typ: TokenTyp::UnsignedInt(47),
            span: Span { line: 1, col_idx: 10, len: 2, line_start: 13, src },
        }))
    );
    assert_eq!(
        lexer.next(),
        Some(Ok(Token {
            typ: TokenTyp::Newline,
            span: Span { line: 1, col_idx: 12, len: 1, line_start: 13, src },
        }))
    );
    assert_eq!(
        lexer.next(),
        Some(Ok(Token {
            typ: TokenTyp::Op(OpKind::Add),
            span: Span { line: 2, col_idx: 0, len: 3, line_start: 26, src },
        }))
    );
    assert_eq!(
        lexer.next(),
        Some(Ok(Token {
            typ: TokenTyp::Register(Register::T0),
            span: Span { line: 2, col_idx: 4, len: 2, line_start: 26, src },
        }))
    );
    assert_eq!(
        lexer.next(),
        Some(Ok(Token {
            typ: TokenTyp::Comma,
            span: Span { line: 2, col_idx: 6, len: 1, line_start: 26, src },
        }))
    );
    assert_eq!(
        lexer.next(),
        Some(Ok(Token {
            typ: TokenTyp::Register(Register::T1),
            span: Span { line: 2, col_idx: 8, len: 2, line_start: 26, src },
        }))
    );
    assert_eq!(
        lexer.next(),
        Some(Ok(Token {
            typ: TokenTyp::Comma,
            span: Span { line: 2, col_idx: 10, len: 1, line_start: 26, src },
        }))
    );
    assert_eq!(
        lexer.next(),
        Some(Ok(Token {
            typ: TokenTyp::Register(Register::T2),
            span: Span { line: 2, col_idx: 12, len: 2, line_start: 26, src },
        }))
    );
    assert_eq!(
        lexer.next(),
        Some(Ok(Token {
            typ: TokenTyp::Newline,
            span: Span { line: 2, col_idx: 14, len: 1, line_start: 26, src },
        }))
    );
    assert_eq!(
        lexer.next(),
        Some(Ok(Token {
            typ: TokenTyp::Newline,
            span: Span { line: 3, col_idx: 16, len: 1, line_start: 41, src },
        }))
    );
    assert_eq!(
        lexer.next(),
        Some(Ok(Token {
            typ: TokenTyp::Op(OpKind::AddI),
            span: Span { line: 4, col_idx: 0, len: 4, line_start: 58, src },
        }))
    );
    assert_eq!(
        lexer.next(),
        Some(Ok(Token {
            typ: TokenTyp::Register(Register::T0),
            span: Span { line: 4, col_idx: 5, len: 2, line_start: 58, src },
        }))
    );
    assert_eq!(
        lexer.next(),
        Some(Ok(Token {
            typ: TokenTyp::Comma,
            span: Span { line: 4, col_idx: 7, len: 1, line_start: 58, src },
        }))
    );
    assert_eq!(
        lexer.next(),
        Some(Ok(Token {
            typ: TokenTyp::Register(Register::T0),
            span: Span { line: 4, col_idx: 9, len: 2, line_start: 58, src },
        }))
    );
    assert_eq!(
        lexer.next(),
        Some(Ok(Token {
            typ: TokenTyp::Comma,
            span: Span { line: 4, col_idx: 11, len: 1, line_start: 58, src },
        }))
    );
    assert_eq!(
        lexer.next(),
        Some(Ok(Token {
            typ: TokenTyp::UnsignedInt(1),
            span: Span { line: 4, col_idx: 13, len: 1, line_start: 58, src },
        }))
    );
    assert_eq!(
        lexer.next(),
        Some(Ok(Token {
            typ: TokenTyp::Newline,
            span: Span { line: 4, col_idx: 14, len: 1, line_start: 58, src },
        }))
    );
    assert_eq!(
        lexer.next(),
        Some(Ok(Token {
            typ: TokenTyp::Newline,
            span: Span { line: 5, col_idx: 16, len: 1, line_start: 73, src },
        }))
    );
    assert_eq!(
        lexer.next(),
        Some(Ok(Token {
            typ: TokenTyp::Newline,
            span: Span { line: 6, col_idx: 0, len: 1, line_start: 90, src },
        }))
    );
    assert_eq!(
        lexer.next(),
        Some(Ok(Token {
            typ: TokenTyp::Op(OpKind::LoadI),
            span: Span { line: 7, col_idx: 0, len: 5, line_start: 91, src },
        }))
    );
    assert_eq!(
        lexer.next(),
        Some(Ok(Token {
            typ: TokenTyp::Register(Register::A0),
            span: Span { line: 7, col_idx: 6, len: 2, line_start: 91, src },
        }))
    );
    assert_eq!(
        lexer.next(),
        Some(Ok(Token {
            typ: TokenTyp::Comma,
            span: Span { line: 7, col_idx: 8, len: 1, line_start: 91, src },
        }))
    );
    assert_eq!(
        lexer.next(),
        Some(Ok(Token {
            typ: TokenTyp::Syscall(SyscallKind::Exit),
            span: Span { line: 7, col_idx: 10, len: 8, line_start: 91, src },
        }))
    );
    assert_eq!(
        lexer.next(),
        Some(Ok(Token {
            typ: TokenTyp::Newline,
            span: Span { line: 7, col_idx: 18, len: 1, line_start: 91, src },
        }))
    );
    assert_eq!(
        lexer.next(),
        Some(Ok(Token {
            typ: TokenTyp::Op(OpKind::Syscall),
            span: Span { line: 8, col_idx: 0, len: 7, line_start: 110, src },
        }))
    );
    assert_eq!(
        lexer.next(),
        Some(Ok(Token {
            typ: TokenTyp::Newline,
            span: Span { line: 8, col_idx: 7, len: 1, line_start: 110, src },
        }))
    );
    assert_eq!(
        lexer.next(),
        Some(Ok(Token {
            typ: TokenTyp::Eof,
            span: Span { line: 9, col_idx: 0, len: 0, line_start: 118, src },
        }))
    );
    assert_eq!(lexer.next(), None);
}

#[test]
fn exit_parse2() {
    let src = EXIT;
    let mut parser = Parser2::new(src);
    assert_eq!(parser.next(), Some(Ok(Op::nop())));
    assert_eq!(
        parser.next(),
        Some(Ok(Op::loadi(
            Register::A0.to_byte(),
            TaggedCapability::from_ugran(u64::from(SyscallKind::Exit.to_byte())),
        )))
    );
    assert_eq!(parser.next(), Some(Ok(Op::syscall())));
    assert_eq!(parser.next(), None);
}

#[test]
fn cmp_parse1() {
    let src = CMP;
    let mut parser = Parser1::new(src);
    let op = |kind, op1, op2, op3| Some(Ok(Stmt::Op(XOp { kind, op1, op2, op3 })));
    let unused = Operand::unused();

    assert_eq!(parser.next(), op(OpKind::LoadI, register(Register::T1), imm(47), unused));
    assert_eq!(parser.next(), op(OpKind::LoadI, register(Register::T2), imm(48), unused));
    assert_eq!(
        parser.next(),
        op(
            OpKind::Bne,
            register(Register::T1),
            register(Register::T2),
            label(src, 2, 12, 8, 26),
        )
    );
    assert_eq!(
        parser.next(),
        op(OpKind::Jal, register(Register::Zero), label(src, 3, 10, 9, 47), unused)
    );
    assert_eq!(
        parser.next(),
        Some(Ok(Stmt::Label(Label {
            id: Span { line: 5, col_idx: 0, len: 8, line_start: 68, src },
            op_idx: 4
        })))
    );
    assert_eq!(parser.next(), op(OpKind::LoadI, register(Register::T0), imm(1), unused));
    assert_eq!(
        parser.next(),
        op(OpKind::Jal, register(Register::Zero), label(src, 7, 11, 4, 91), unused)
    );
    assert_eq!(
        parser.next(),
        Some(Ok(Stmt::Label(Label {
            id: Span { line: 9, col_idx: 0, len: 9, line_start: 108, src },
            op_idx: 6
        })))
    );
    assert_eq!(parser.next(), op(OpKind::LoadI, register(Register::T0), imm(0), unused));
    assert_eq!(
        parser.next(),
        op(OpKind::Jal, register(Register::Zero), label(src, 11, 11, 4, 132), unused)
    );
    assert_eq!(
        parser.next(),
        Some(Ok(Stmt::Label(Label {
            id: Span { line: 13, col_idx: 0, len: 4, line_start: 149, src },
            op_idx: 8,
        })))
    );
    assert_eq!(
        parser.next(),
        op(
            OpKind::LoadI,
            register(Register::A0),
            imm(u64::from(SyscallKind::Exit.to_byte())),
            unused,
        )
    );
    assert_eq!(parser.next(), op(OpKind::Syscall, unused, unused, unused));
    assert_eq!(parser.next(), None);
}

#[test]
fn parser_eof_unreachable() {
    let src = CRASH_3;

    {
        let mut lexer = Lexer::new(src);
        assert_eq!(
            lexer.next(),
            Some(Ok(Token {
                typ: TokenTyp::Op(OpKind::LoadI),
                span: Span { line: 0, col_idx: 0, len: 5, line_start: 0, src }
            }))
        );
        assert_eq!(
            lexer.next(),
            Some(Ok(Token {
                typ: TokenTyp::Eof,
                span: Span { line: 0, col_idx: 5, len: 0, line_start: 0, src }
            }))
        );
        assert_eq!(lexer.next(), None);
    }

    {
        let mut parser = Parser2::new(src);
        assert_eq!(
            parser.next(),
            Some(Err(ParseErr {
                typ: ParseErrTyp::InvalidOperand { found: TokenTyp::Eof },
                span: Span { line: 0, col_idx: 5, len: 0, line_start: 0, src }
            }))
        );
    }
}

fn lex(src: &str) -> Vec<Result<TokenTyp, LexErrTyp>> {
    let mut lexer = Lexer::new(src);
    let mut out = Vec::new();
    while let Some(item) = lexer.next() {
        out.push(match item {
            Ok(token) => Ok(token.typ),
            Err(err) => Err(err.typ),
        });
    }
    out
}

#[test]
fn words_are_classified() {
    assert_eq!(
        lex("add,s11:SYS_ALLOC_FREE_ALL 18446744073709551615 +7 x9"),
        vec![
            Ok(TokenTyp::Op(OpKind::Add)),
            Ok(TokenTyp::Comma),
            Ok(TokenTyp::Register(Register::S11)),
            Ok(TokenTyp::Colon),
            Ok(TokenTyp::Syscall(SyscallKind::AllocFreeAll)),
            Ok(TokenTyp::UnsignedInt(u64::MAX)),
            Ok(TokenTyp::UnsignedInt(7)),
            Ok(TokenTyp::Identifier),
            Ok(TokenTyp::Eof),
        ]
    );
    assert_eq!(
        lex("UGRAN_SIZE UGRAN_BITS UADDR_SIZE UADDR_BITS"),
        vec![
            Ok(TokenTyp::UnsignedInt(8)),
            Ok(TokenTyp::UnsignedInt(64)),
            Ok(TokenTyp::UnsignedInt(2)),
            Ok(TokenTyp::UnsignedInt(16)),
            Ok(TokenTyp::Eof),
        ]
    );
    // a number that a grain cannot hold
    assert_eq!(
        lex("18446744073709551616"),
        vec![Err(LexErrTyp::InvalidUnsignedInt), Ok(TokenTyp::Eof)]
    );
    assert_eq!(
        lex("184467440737095516150"),
        vec![Err(LexErrTyp::InvalidUnsignedInt), Ok(TokenTyp::Eof)]
    );
    // what is no number is an identifier, whatever comes after
    assert_eq!(
        lex("1x8446744073709551616000 + -1 ADD 0x10"),
        vec![
            Ok(TokenTyp::Identifier),
            Ok(TokenTyp::Identifier),
            Ok(TokenTyp::Identifier),
            Ok(TokenTyp::Identifier),
            Ok(TokenTyp::Identifier),
            Ok(TokenTyp::Eof),
        ]
    );
    assert_eq!(lex("007"), vec![Ok(TokenTyp::UnsignedInt(7)), Ok(TokenTyp::Eof)]);
    assert_eq!(
        Lexer::check_ctx("syscall".as_bytes()),
        Ok(TokenTyp::Op(OpKind::Syscall))
    );
    assert_eq!(Lexer::check_ctx("".as_bytes()), Ok(TokenTyp::Identifier));
    assert_eq!(Lexer::check_no_ctx(",".as_bytes()), Some(TokenTyp::Comma));
    assert_eq!(Lexer::check_no_ctx("\n".as_bytes()), Some(TokenTyp::Newline));
    assert_eq!(Lexer::check_no_ctx("\r\n".as_bytes()), None);
    assert_eq!(Lexer::check_no_ctx(";".as_bytes()), None);
}

#[test]
fn white_space_and_comments_are_passed_over() {
    assert_eq!(lex(""), vec![Ok(TokenTyp::Eof)]);
    assert_eq!(lex(" \t\u{a0}\u{2003}\u{3000} "), vec![Ok(TokenTyp::Eof)]);
    assert_eq!(lex("; nothing but a comment"), vec![Ok(TokenTyp::Eof)]);
    // a carriage return with its line feed is one cluster, and ends no comment
    assert_eq!(
        lex("nop;comment , : nop\r\nnop"),
        vec![Ok(TokenTyp::Op(OpKind::Nop)), Ok(TokenTyp::Eof)]
    );
    assert_eq!(
        lex("nop\r\nnop"),
        vec![
            Ok(TokenTyp::Op(OpKind::Nop)),
            Ok(TokenTyp::Op(OpKind::Nop)),
            Ok(TokenTyp::Eof),
        ]
    );
    assert_eq!(
        lex("nop;comment\nnop"),
        vec![
            Ok(TokenTyp::Op(OpKind::Nop)),
            Ok(TokenTyp::Newline),
            Ok(TokenTyp::Op(OpKind::Nop)),
            Ok(TokenTyp::Eof),
        ]
    );
    // a character that is no white space ends no word
    assert_eq!(lex("nop\u{200b}nop"), vec![Ok(TokenTyp::Identifier), Ok(TokenTyp::Eof)]);
    // spans count bytes, and a cluster of several characters is one piece
    let src = "\u{e9}t\u{e9} e\u{301}\n z";
    let mut lexer = Lexer::new(src);
    assert_eq!(
        lexer.next(),
        Some(Ok(Token {
            typ: TokenTyp::Identifier,
            span: Span { line: 0, col_idx: 0, len: 5, line_start: 0, src }
        }))
    );
    let second = lexer.next().unwrap().unwrap();
    assert_eq!(second.span, Span { line: 0, col_idx: 6, len: 3, line_start: 0, src });
    assert_eq!(second.span.get(), "e\u{301}");
    assert_eq!(second.span.get_line(), "\u{e9}t\u{e9} e\u{301}");
    let newline = lexer.next().unwrap().unwrap();
    assert_eq!(newline.typ, TokenTyp::Newline);
    assert_eq!(newline.span, Span { line: 0, col_idx: 9, len: 1, line_start: 0, src });
    let last = lexer.next().unwrap().unwrap();
    assert_eq!(last.span, Span { line: 1, col_idx: 1, len: 1, line_start: 10, src });
    assert_eq!(last.span.get(), "z");
    assert_eq!(last.span.get_line(), " z");
    assert_eq!(
        lexer.next(),
        Some(Ok(Token {
            typ: TokenTyp::Eof,
            span: Span { line: 1, col_idx: 2, len: 0, line_start: 10, src }
        }))
    );
    assert_eq!(lexer.next(), None);
    assert_eq!(lexer.next(), None);
}

#[test]
fn lexer_can_be_given_its_clusters() {
    let src = "nop\n";
    let mut lexer = Lexer::with_clusters(src, vec![(0, 1), (1, 1), (2, 1), (3, 1)]);
    assert_eq!(
        lexer.next(),
        Some(Ok(Token {
            typ: TokenTyp::Op(OpKind::Nop),
            span: Span { line: 0, col_idx: 0, len: 3, line_start: 0, src }
        }))
    );
    // with other clusters the same text gives other tokens
    let mut lexer = Lexer::with_clusters(src, vec![(0, 3), (3, 1)]);
    assert!(matches!(lexer.next(), Some(Ok(Token { typ: TokenTyp::Op(OpKind::Nop), .. }))));
    let mut lexer = Lexer::with_clusters(src, vec![(0, 4)]);
    assert_eq!(
        lexer.next(),
        Some(Ok(Token {
            typ: TokenTyp::Identifier,
            span: Span { line: 0, col_idx: 0, len: 4, line_start: 0, src }
        }))
    );
}

#[test]
fn tokens_have_classes_and_operand_types() {
    assert_eq!(TokenClass::Literal.display(), "literal");
    assert_eq!(OperandType::Label.display(), "label");
    assert_eq!(TokenTyp::Op(OpKind::Nop).classify(), Some(TokenClass::Op));
    assert_eq!(TokenTyp::Register(Register::Pc).classify(), Some(TokenClass::Register));
    assert_eq!(TokenTyp::Syscall(SyscallKind::Exit).classify(), Some(TokenClass::Syscall));
    assert_eq!(TokenTyp::UnsignedInt(1).classify(), Some(TokenClass::Literal));
    assert_eq!(TokenTyp::Identifier.classify(), Some(TokenClass::Identifier));
    assert_eq!(TokenTyp::Comma.classify(), None);
    assert_eq!(TokenTyp::Eof.classify(), None);
    assert_eq!(TokenTyp::Register(Register::Pc).operand_type(), Some(OperandType::Register));
    assert_eq!(TokenTyp::Syscall(SyscallKind::Exit).operand_type(), Some(OperandType::Immediate));
    assert_eq!(TokenTyp::UnsignedInt(1).operand_type(), Some(OperandType::Immediate));
    assert_eq!(TokenTyp::Identifier.operand_type(), Some(OperandType::Label));
    assert_eq!(TokenTyp::Op(OpKind::Nop).operand_type(), None);
    assert_eq!(TokenTyp::Newline.operand_type(), None);
    let r = Some(OperandType::Register);
    let i = Some(OperandType::Immediate);
    let l = Some(OperandType::Label);
    assert_eq!(type_signature(OpKind::Nop), [None, None, None]);
    assert_eq!(type_signature(OpKind::Syscall), [None, None, None]);
    assert_eq!(type_signature(OpKind::LoadI), [r, i, None]);
    assert_eq!(type_signature(OpKind::Cpy), [r, r, None]);
    assert_eq!(type_signature(OpKind::CSeal), [r, r, r]);
    assert_eq!(type_signature(OpKind::AddI), [r, r, i]);
    assert_eq!(type_signature(OpKind::Sra), [r, r, r]);
    assert_eq!(type_signature(OpKind::Jal), [r, l, None]);
    assert_eq!(type_signature(OpKind::Jalr), [r, r, l]);
    assert_eq!(type_signature(OpKind::Bgeu), [r, r, l]);
    for byte in 0..=50u8 {
        let kind = OpKind::from_byte(byte).unwrap();
        let used = type_signature(kind).iter().filter(|slot| slot.is_some()).count();
        assert_eq!(used, usize::from(kind.operand_count()));
    }
    assert_eq!(
        OperandVal::Known(TaggedCapability::from_ugran(5)).unwrap(),
        TaggedCapability::from_ugran(5)
    );
}

fn parse_errors(src: &'static str) -> Vec<ParseErrTyp<'static>> {
    let mut parser = Parser2::new(src);
    let mut out = Vec::new();
    while let Some(item) = parser.next() {
        if let Err(err) = item {
            out.push(err.typ);
        }
    }
    out
}

#[test]
fn statements_are_checked() {
    assert_eq!(
        parse_errors("add t0, t1\n"),
        vec![ParseErrTyp::ExpectedTyp { expected: TokenTyp::Comma, found: TokenTyp::Newline }]
    );
    assert_eq!(
        parse_errors("nop nop\n"),
        vec![ParseErrTyp::ExpectedTyp {
            expected: TokenTyp::Newline,
            found: TokenTyp::Op(OpKind::Nop)
        }]
    );
    assert_eq!(
        parse_errors("loadi 5, 5\n"),
        vec![
            ParseErrTyp::InvalidStmtStart { found: TokenTyp::UnsignedInt(5) },
            ParseErrTyp::OperandTypeMismatch {
                expected: OperandType::Register,
                found: OperandType::Immediate
            },
        ]
    );
    assert_eq!(
        parse_errors("loadi t0, t1\n"),
        vec![ParseErrTyp::OperandTypeMismatch {
            expected: OperandType::Immediate,
            found: OperandType::Register
        }]
    );
    assert_eq!(
        parse_errors(", \n"),
        vec![ParseErrTyp::InvalidStmtStart { found: TokenTyp::Comma }]
    );
    assert_eq!(
        parse_errors("loadi t0, 99999999999999999999\n"),
        vec![ParseErrTyp::Lex(LexErrTyp::InvalidUnsignedInt)]
    );
    assert_eq!(
        parse_errors("LABEL\n"),
        vec![ParseErrTyp::ExpectedTyp { expected: TokenTyp::Colon, found: TokenTyp::Newline }]
    );
    assert_eq!(
        parse_errors("LABEL: nop\n"),
        vec![ParseErrTyp::ExpectedTyp {
            expected: TokenTyp::Newline,
            found: TokenTyp::Op(OpKind::Nop)
        }]
    );
    assert_eq!(parse_errors("jal zero, NOWHERE\n"), vec![ParseErrTyp::LabelUndef]);
    let src = "A:\nnop\nA:\nnop\n";
    assert_eq!(
        parse_errors(src),
        vec![ParseErrTyp::LabelRedef {
            first_def: Span { line: 0, col_idx: 0, len: 1, line_start: 0, src }
        }]
    );
    assert!(parse_errors("A:\nB:\nAB:\njal zero, AB\njal zero, B\n").is_empty());
}

fn assemble(src: &'static str) -> Vec<Op> {
    let mut parser = Parser2::new(src);
    let mut out = Vec::new();
    while let Some(item) = parser.next() {
        out.push(item.unwrap());
    }
    out
}

#[test]
fn labels_resolve_to_byte_offsets() {
    let ops = assemble("BACK:\njal zero, FWD\nnop\nFWD:\nbeq t0, t1, BACK\njalr ra, t0, FWD\nHERE:\njal ra, HERE\n");
    let data = TaggedCapability::from_ugran;
    assert_eq!(ops.len(), 5);
    assert_eq!(ops[0], Op::new(OpKind::Jal, data(0), data(64), data(0)));
    assert_eq!(ops[1], Op::nop());
    assert_eq!(
        ops[2],
        Op::new(OpKind::Beq, data(4), data(5), data(0u64.wrapping_sub(64)))
    );
    assert_eq!(
        ops[3],
        Op::new(OpKind::Jalr, data(2), data(4), data(0u64.wrapping_sub(32)))
    );
    assert_eq!(ops[4], Op::new(OpKind::Jal, data(2), data(0), data(0)));
    // the later of two labels of one name is the one meant, though it is an error
    let mut parser = Parser2::new("A:\nnop\nA:\njal zero, A\n");
    assert!(matches!(parser.next(), Some(Err(_))));
    assert_eq!(parser.next(), Some(Ok(Op::nop())));
    assert_eq!(parser.next(), Some(Ok(Op::new(OpKind::Jal, data(0), data(0), data(0)))));
    assert_eq!(parser.next(), None);
}

#[test]
fn label_too_far_away_overflows() {
    let mut text = String::from("jal zero, END\n");
    for _ in 0..1022 {
        text.push_str("nop\n");
    }
    text.push_str("END:\nnop\n");
    let near: &'static str = text.clone().leak();
    let ops = assemble(near);
    assert_eq!(ops[0].op2, TaggedCapability::from_ugran(1023 * 32));
    let mut text = String::from("jal zero, END\n");
    for _ in 0..1023 {
        text.push_str("nop\n");
    }
    text.push_str("END:\nnop\n");
    let far: &'static str = text.leak();
    assert_eq!(parse_errors(far), vec![ParseErrTyp::LabelOffsetOverflow]);
}

#[test]
fn errors_carry_their_span() {
    let src = "nop\n add t0, 5, t1\n";
    let mut parser = Parser2::new(src);
    // the parser went on after the first error, and the last error comes first
    match parser.next() {
        Some(Err(err)) => {
            assert_eq!(
                err.typ,
                ParseErrTyp::InvalidStmtStart { found: TokenTyp::Register(Register::T1) }
            );
            assert_eq!(err.span, Span { line: 1, col_idx: 12, len: 2, line_start: 4, src });
        }
        other => panic!("{other:?}"),
    }
    match parser.next() {
        Some(Err(err)) => {
            assert_eq!(
                err.typ,
                ParseErrTyp::OperandTypeMismatch {
                    expected: OperandType::Register,
                    found: OperandType::Immediate
                }
            );
            assert_eq!(err.span, Span { line: 1, col_idx: 9, len: 1, line_start: 4, src });
            assert_eq!(err.span.get(), "5");
            assert_eq!(err.span.get_line(), " add t0, 5, t1");
        }
        other => panic!("{other:?}"),
    }
    assert_eq!(parser.next(), Some(Ok(Op::nop())));
    assert_eq!(parser.next(), None);
    let src = "loadi t0, 99999999999999999999\n";
    let mut lexer = Lexer::new(src);
    lexer.next();
    lexer.next();
    lexer.next();
    assert_eq!(
        lexer.next(),
        Some(Err(LexErr {
            typ: LexErrTyp::InvalidUnsignedInt,
            span: Span { line: 0, col_idx: 10, len: 20, line_start: 0, src }
        }))
    );
}
