use velocity::analysis::{ArithOp, TypeError, Uninferable};
use velocity::grammar::{NumericKind, Token, TypeKind};
use velocity::lexer::LexError;
use velocity::lower::{try_parse_number_literal, LowerError, Unlowered};
use velocity::parser::ParseError;
use velocity::verify::VerifyError;
use velocity::vir::{BlockId, InstId, ValueId};

fn s(x: &str) -> String {
    String::from(x)
}

const ALL_TYPES: [TypeKind; 13] = [
    TypeKind::String,
    TypeKind::Bool,
    TypeKind::I8,
    TypeKind::I16,
    TypeKind::I32,
    TypeKind::I64,
    TypeKind::U8,
    TypeKind::U16,
    TypeKind::U32,
    TypeKind::U64,
    TypeKind::Unit,
    TypeKind::F32,
    TypeKind::F64,
];

#[test]
fn type_names_in_messages_are_their_debug_text() {
    for t in ALL_TYPES {
        assert_eq!(
            TypeError::ExpectedNumeric(t).message(),
            format!("Expected numeric type, got {:?}", t)
        );
    }
}

#[test]
fn type_error_texts() {
    assert_eq!(
        TypeError::LiteralDoesNotFit(s("300"), TypeKind::I8).message(),
        "'300' does not fit in i8"
    );
    assert_eq!(TypeError::UndefinedVariable(s("x")).message(), "Undefined variable 'x'");
    assert_eq!(
        TypeError::OperandMismatch(ArithOp::Mul, TypeKind::U8, TypeKind::I64).message(),
        "Cannot multiply U8 and I64"
    );
    assert_eq!(
        TypeError::OperandMismatch(ArithOp::Sub, TypeKind::Bool, TypeKind::I64).message(),
        "Cannot subtract Bool and I64"
    );
    assert_eq!(
        TypeError::BranchMismatch(TypeKind::I64, TypeKind::Bool).message(),
        "Type mismatch in if branches: then = I64, else = Bool"
    );
    assert_eq!(TypeError::NegateUnsigned(TypeKind::U8).message(), "Cannot negate unsigned type U8");
    assert_eq!(TypeError::NegateNonNumeric(TypeKind::Bool).message(), "Cannot negate Bool");
    assert_eq!(
        TypeError::NonBoolCondition(TypeKind::String).message(),
        "If-condition must be Bool, got String"
    );
    assert_eq!(TypeError::IdentifierNotFound(s("g")).message(), "Identifier g not found");
    assert_eq!(TypeError::Redeclared(s("x")).message(), "Cannot redeclare existing identifier x");
    assert_eq!(
        TypeError::DeclaredMismatch(TypeKind::I8, TypeKind::Bool).message(),
        "Declared type I8 does not match inferred type Bool"
    );
    assert_eq!(TypeError::ReassignUndefined(s("z")).message(), "Cannot reassign undefined identifier z");
    assert_eq!(TypeError::ReassignImmutable(s("x")).message(), "Cannot reassign immutable identifier x");
    assert_eq!(
        TypeError::ReassignMismatch(s("x\"y"), TypeKind::I64).message(),
        format!("Value for {:?} does not match declared type I64", "x\"y")
    );
    assert_eq!(
        TypeError::CannotInfer(Uninferable::Number(NumericKind::I16(-4))).message(),
        "Cannot infer type for Number(I16(-4))"
    );
}

#[test]
fn lower_error_texts() {
    assert_eq!(
        LowerError::MissingLetType(s("x")).message(),
        "type inference should have assigned a type to every let"
    );
    assert_eq!(LowerError::BlockLetMissingType(s("y")).message(), "Block local let 'y' missing type");
    assert_eq!(
        LowerError::LetTypeMismatch(s("x"), TypeKind::I8, TypeKind::I64).message(),
        "let 'x' expected type I8, got I64"
    );
    assert_eq!(LowerError::UnknownVariable(s("q")).message(), "unknown variable 'q'");
    assert_eq!(
        LowerError::ReassignImmutable(s("x"), false).message(),
        "cannot reassign immutable variable 'x'"
    );
    assert_eq!(
        LowerError::ReassignImmutable(s("x"), true).message(),
        "Cannot reassign immutable variable 'x' inside block"
    );
    assert_eq!(
        LowerError::AssignTypeMismatch(s("x"), TypeKind::Bool, TypeKind::I64).message(),
        "cannot assign value of type Bool to variable 'x' of type I64"
    );
    assert_eq!(
        LowerError::NonNumericLiteral(TypeKind::Bool).message(),
        "numeric literal cannot have type Bool"
    );
    assert_eq!(
        LowerError::StringTypeMismatch(TypeKind::I64).message(),
        "string literal does not match expected type I64"
    );
    assert_eq!(
        LowerError::BoolTypeMismatch(TypeKind::String).message(),
        "bool literal does not match expected type String"
    );
    assert_eq!(
        LowerError::OperandMismatch(ArithOp::Add, TypeKind::I64, TypeKind::Bool, TypeKind::I64).message(),
        "type mismatch in add: lhs=I64, rhs=Bool, expected=I64"
    );
    assert_eq!(
        LowerError::NotAValue(ValueId::Inst(InstId(9))).message(),
        "ValueId::Inst(InstId(9)) refers to non-value instruction"
    );
    assert_eq!(
        LowerError::DuplicateFunction(s("f")).message(),
        "Function named '\"f\"' already exists"
    );
    assert_eq!(LowerError::TooManyBlocks.message(), "attempt to subtract with overflow");
    assert_eq!(
        LowerError::Invalid(0, VerifyError::EmptyBlock { block: BlockId(2) }).message(),
        "VIR verification failed for function #0 ('global'): block BlockId(2) is empty"
    );
    assert_eq!(
        LowerError::Unsupported(Unlowered::Call).message(),
        "lowering does not handle calls"
    );
}

fn literal_message(text: &str, ty: TypeKind) -> String {
    match try_parse_number_literal(&s(text), ty) {
        Err(e) => e.message(),
        Ok(c) => panic!("{:?} parsed as {:?}", text, c),
    }
}

#[test]
fn invalid_literal_texts_match_std_errors() {
    let texts = [
        "", "+", "-", "-1", "300", "-300", "12a", "99999999999999999999", "-99999999999999999999",
        "999a", "+-1", "1.5", " 1", "٣",
    ];
    for text in texts {
        if text.parse::<i8>().is_err() {
            assert_eq!(
                literal_message(text, TypeKind::I8),
                format!("invalid i8 literal: {:?}", text.parse::<i8>().unwrap_err()),
                "{:?}",
                text
            );
        }
        if text.parse::<u8>().is_err() {
            assert_eq!(
                literal_message(text, TypeKind::U8),
                format!("invalid u8 literal: {:?}", text.parse::<u8>().unwrap_err()),
                "{:?}",
                text
            );
        }
        if text.parse::<i64>().is_err() {
            assert_eq!(
                literal_message(text, TypeKind::I64),
                format!("invalid i64 literal: {:?}", text.parse::<i64>().unwrap_err()),
                "{:?}",
                text
            );
        }
        if text.parse::<u64>().is_err() {
            assert_eq!(
                literal_message(text, TypeKind::U64),
                format!("invalid u64 literal: {:?}", text.parse::<u64>().unwrap_err()),
                "{:?}",
                text
            );
        }
        if text.parse::<f32>().is_err() {
            assert_eq!(
                literal_message(text, TypeKind::F32),
                format!("invalid f32 literal: {:?}", text.parse::<f32>().unwrap_err()),
                "{:?}",
                text
            );
        }
    }
}

#[test]
fn parse_error_texts_match_token_debug() {
    let tokens = vec![
        Token::Plus,
        Token::RBrace,
        Token::Bool(false),
        Token::Ident(s("name")),
        Token::NumberLiteral(s("12")),
        Token::String(s("a \"b\"")),
        Token::Type(TypeKind::U16),
        Token::Number(NumericKind::I64(-7)),
    ];
    for t in tokens {
        let expected = format!("Unexpected token {:?}", Some(&t));
        assert_eq!(ParseError::UnexpectedToken(Some(t)).message(), expected);
    }
    assert_eq!(ParseError::UnexpectedToken(None).message(), "Unexpected token None");
    assert_eq!(ParseError::ExpectedAssign.message(), "Expected assign (=) in let statement");
    assert_eq!(ParseError::ExpectedIdentifier.message(), "Expected identifier in let statement");
}

#[test]
fn lex_error_texts() {
    assert_eq!(LexError::UnterminatedComment.message(), "Unterminated multiline comment");
    assert_eq!(LexError::UnterminatedString.message(), "Unterminated string literal");
}
