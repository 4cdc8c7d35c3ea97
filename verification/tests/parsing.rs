use velocity::grammar::{Expr, Stmt, Token, TypeKind};
use velocity::lexer::tokenize;
use velocity::parser::{clone_token, parse_program, ParseError, Parser};

fn lex(src: &str) -> Vec<Token> {
    let (tokens, unknown) = tokenize(src.chars().collect()).unwrap();
    assert_eq!(unknown, None);
    tokens
}

fn parse(src: &str) -> Vec<Stmt> {
    parse_program(lex(src)).unwrap()
}

fn n(s: &str) -> Box<Expr> {
    Box::new(Expr::NumberLiteral(String::from(s)))
}

fn v(s: &str) -> Box<Expr> {
    Box::new(Expr::Var(String::from(s)))
}

#[test]
fn multiplication_binds_tighter_than_addition() {
    assert_eq!(
        parse("let x = 1 + 2 * 3"),
        vec![Stmt::Let(
            String::from("x"),
            Expr::Add(n("1"), Box::new(Expr::Mul(n("2"), n("3")))),
            false,
            None,
        )]
    );
}

#[test]
fn subtraction_is_left_associative() {
    assert_eq!(
        parse("a - b - c"),
        vec![Stmt::ExprStmt(Expr::Sub(Box::new(Expr::Sub(v("a"), v("b"))), v("c")))]
    );
}

#[test]
fn division_is_left_associative() {
    assert_eq!(
        parse("8 / 4 / 2"),
        vec![Stmt::ExprStmt(Expr::Div(Box::new(Expr::Div(n("8"), n("4"))), n("2")))]
    );
}

#[test]
fn parses_mutable_let() {
    assert_eq!(
        parse("let mut x = 0"),
        vec![Stmt::Let(String::from("x"), Expr::NumberLiteral(String::from("0")), true, None)]
    );
}

#[test]
fn let_with_a_type_token_keeps_the_type() {
    let tokens = vec![
        Token::Let,
        Token::Ident(String::from("x")),
        Token::Colon,
        Token::Type(TypeKind::I8),
        Token::Assign,
        Token::NumberLiteral(String::from("3")),
    ];
    assert_eq!(
        parse_program(tokens).unwrap(),
        vec![Stmt::Let(
            String::from("x"),
            Expr::NumberLiteral(String::from("3")),
            false,
            Some(TypeKind::I8)
        )]
    );
}

#[test]
fn let_with_a_type_name_keeps_the_type() {
    assert_eq!(
        parse("let mut x: u16 = 3"),
        vec![Stmt::Let(
            String::from("x"),
            Expr::NumberLiteral(String::from("3")),
            true,
            Some(TypeKind::U16)
        )]
    );
}

#[test]
fn parses_reassignment() {
    assert_eq!(
        parse("x = 4"),
        vec![Stmt::Reassign(String::from("x"), Expr::NumberLiteral(String::from("4")))]
    );
}

#[test]
fn parses_print() {
    assert_eq!(
        parse("print(\"hi\") print(x + 3)"),
        vec![
            Stmt::Print(Expr::String(String::from("hi"))),
            Stmt::Print(Expr::Add(v("x"), n("3"))),
        ]
    );
}

#[test]
fn parses_if_else_expression() {
    assert_eq!(
        parse("let a = if true { 100 } else { 50 }"),
        vec![Stmt::Let(
            String::from("a"),
            Expr::If {
                condition: Box::new(Expr::Bool(true)),
                then_branch: Box::new(Expr::Block(vec![Stmt::ExprStmt(Expr::NumberLiteral(
                    String::from("100")
                ))])),
                else_branch: Some(Box::new(Expr::Block(vec![Stmt::ExprStmt(
                    Expr::NumberLiteral(String::from("50"))
                )]))),
            },
            false,
            None,
        )]
    );
}

#[test]
fn parses_else_if_chain() {
    assert_eq!(
        parse("if a { } else if b { }"),
        vec![Stmt::ExprStmt(Expr::If {
            condition: v("a"),
            then_branch: Box::new(Expr::Block(vec![])),
            else_branch: Some(Box::new(Expr::If {
                condition: v("b"),
                then_branch: Box::new(Expr::Block(vec![])),
                else_branch: None,
            })),
        })]
    );
}

#[test]
fn parses_return_and_negation() {
    assert_eq!(
        parse("return 5 -x"),
        vec![Stmt::Return(Expr::Sub(n("5"), v("x")))]
    );
    assert_eq!(parse("-5"), vec![Stmt::ExprStmt(Expr::Negate(n("5")))]);
}

#[test]
fn adjacent_expressions_are_separate_statements() {
    assert_eq!(
        parse("x y"),
        vec![Stmt::ExprStmt(Expr::Var(String::from("x"))), Stmt::ExprStmt(Expr::Var(String::from("y")))]
    );
}

#[test]
fn block_in_expression_position_skips_the_token_after_the_brace() {
    // The opening brace is read as a primary expression and then once more by
    // the block itself, so the `let` after it is passed over.
    assert_eq!(
        parse("{ let y = 1 print(y) }"),
        vec![Stmt::ExprStmt(Expr::Block(vec![
            Stmt::Reassign(String::from("y"), Expr::NumberLiteral(String::from("1"))),
            Stmt::Print(Expr::Var(String::from("y"))),
        ]))]
    );
}

#[test]
fn if_branches_parse_every_statement() {
    assert_eq!(
        parse("if c { let y = 1 print(y) }"),
        vec![Stmt::ExprStmt(Expr::If {
            condition: v("c"),
            then_branch: Box::new(Expr::Block(vec![
                Stmt::Let(String::from("y"), Expr::NumberLiteral(String::from("1")), false, None),
                Stmt::Print(Expr::Var(String::from("y"))),
            ])),
            else_branch: None,
        })]
    );
}

#[test]
fn let_without_identifier_is_an_error() {
    assert!(matches!(parse_program(lex("let = 1")), Err(ParseError::ExpectedIdentifier)));
}

#[test]
fn let_without_assign_is_an_error() {
    assert!(matches!(parse_program(lex("let x 1")), Err(ParseError::ExpectedAssign)));
}

#[test]
fn unexpected_token_is_an_error() {
    assert!(matches!(
        parse_program(lex("+")),
        Err(ParseError::UnexpectedToken(Some(Token::Plus)))
    ));
    assert!(matches!(parse_program(lex("let x =")), Err(ParseError::UnexpectedToken(None))));
    assert!(matches!(parse_program(lex("{ 1")), Err(ParseError::UnexpectedToken(None))));
}

#[test]
fn empty_program_has_no_statements() {
    assert_eq!(parse(""), Vec::<Stmt>::new());
}

#[test]
fn peek_and_peek_ahead() {
    let parser = Parser { tokens: lex("let x"), pos: 0 };
    assert_eq!(parser.peek(), Some(&Token::Let));
    assert_eq!(parser.peek_ahead(1), Some(&Token::Ident(String::from("x"))));
    assert_eq!(parser.peek_ahead(2), None);
    let parser = Parser { tokens: lex("let x"), pos: 2 };
    assert_eq!(parser.peek(), None);
}

#[test]
fn parse_stmt_moves_past_one_statement() {
    let mut parser = Parser { tokens: lex("x = 1 print(x)"), pos: 0 };
    assert_eq!(
        parser.parse_stmt(),
        Stmt::Reassign(String::from("x"), Expr::NumberLiteral(String::from("1")))
    );
    assert_eq!(parser.pos, 3);
    assert_eq!(parser.parse_stmt(), Stmt::Print(Expr::Var(String::from("x"))));
    assert_eq!(parser.pos, 7);
    assert_eq!(parser.peek(), None);
}

#[test]
fn try_parse_stmt_reports_errors() {
    let mut parser = Parser { tokens: lex("*"), pos: 0 };
    assert!(matches!(
        parser.try_parse_stmt(),
        Err(ParseError::UnexpectedToken(Some(Token::Star)))
    ));
}

#[test]
fn clone_token_copies() {
    let t = Token::String(String::from("s"));
    assert_eq!(clone_token(&t), t);
    assert_eq!(clone_token(&Token::Type(TypeKind::Bool)), Token::Type(TypeKind::Bool));
}
