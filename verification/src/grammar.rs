use vstd::prelude::*;

use crate::names::NameMap;

verus! {

/// The types of the language.
#[derive(Clone, Copy, Debug, PartialEq, Eq, Structural)]
pub enum TypeKind {
    String,
    Bool,
    I8,
    I16,
    I32,
    I64,
    U8,
    U16,
    U32,
    U64,
    Unit,
    F32,
    F64,
}

/// Whether `t` is a numeric type.
pub open spec fn numeric_type(t: TypeKind) -> bool {
    match t {
        TypeKind::String | TypeKind::Bool | TypeKind::Unit => false,
        _ => true,
    }
}

/// A typed numeric value. Floating-point values are held by their IEEE 754 bit patterns.
#[derive(Clone, Copy, Debug, PartialEq, Eq, Structural)]
pub enum NumericKind {
    I8(i8),
    I16(i16),
    I32(i32),
    I64(i64),
    U8(u8),
    U16(u16),
    U32(u32),
    U64(u64),
    F32(u32),
    F64(u64),
}

/// What the type checker knows of a name.
#[derive(Clone, Copy, Debug, PartialEq, Eq, Structural)]
pub struct TypeBinding {
    pub ty: TypeKind,
    pub mutable: bool,
}

/// The names in scope during type checking, with their bindings.
pub struct TypeEnv {
    pub idents: NameMap<TypeBinding>,
}

impl TypeEnv {
    /// An environment with no names in it.
    pub fn new() -> (env: TypeEnv)
        ensures
            env.idents@ == Map::<Seq<char>, TypeBinding>::empty(),
    {
        TypeEnv { idents: NameMap::new() }
    }
}

#[derive(Debug, PartialEq)]
pub enum Expr {
    Block(Vec<Stmt>),
    If { condition: Box<Expr>, then_branch: Box<Expr>, else_branch: Option<Box<Expr>> },
    Call(Box<Expr>, Vec<Expr>),
    Negate(Box<Expr>),
    Number(NumericKind),
    NumberLiteral(String),
    String(String),
    Bool(bool),
    Add(Box<Expr>, Box<Expr>),
    Sub(Box<Expr>, Box<Expr>),
    Mul(Box<Expr>, Box<Expr>),
    Div(Box<Expr>, Box<Expr>),
    Var(String),
}

#[derive(Debug, PartialEq)]
pub enum Stmt {
    ExprStmt(Expr),
    Let(String, Expr, bool, Option<TypeKind>),
    Print(Expr),
    Return(Expr),
    Reassign(String, Expr),
}

/// An expression, with strings as sequences of characters and vectors as sequences.
pub enum ExprV {
    Block(Seq<StmtV>),
    If { condition: Box<ExprV>, then_branch: Box<ExprV>, else_branch: Option<Box<ExprV>> },
    Call(Box<ExprV>, Seq<ExprV>),
    Negate(Box<ExprV>),
    Number(NumericKind),
    NumberLiteral(Seq<char>),
    Str(Seq<char>),
    Bool(bool),
    Add(Box<ExprV>, Box<ExprV>),
    Sub(Box<ExprV>, Box<ExprV>),
    Mul(Box<ExprV>, Box<ExprV>),
    Div(Box<ExprV>, Box<ExprV>),
    Var(Seq<char>),
}

/// A statement, with strings as sequences of characters and vectors as sequences.
pub enum StmtV {
    ExprStmt(ExprV),
    Let(Seq<char>, ExprV, bool, Option<TypeKind>),
    Print(ExprV),
    Return(ExprV),
    Reassign(Seq<char>, ExprV),
}

/// The views of a sequence of statements.
pub open spec fn stmts_view(s: Seq<Stmt>) -> Seq<StmtV>
    decreases s, 1int,
{
    if s.len() == 0 {
        Seq::empty()
    } else {
        stmts_view(s.drop_last()).push(stmt_view(s.last()))
    }
}

/// The views of a sequence of expressions.
pub open spec fn exprs_view(s: Seq<Expr>) -> Seq<ExprV>
    decreases s, 1int,
{
    if s.len() == 0 {
        Seq::empty()
    } else {
        exprs_view(s.drop_last()).push(expr_view(s.last()))
    }
}

/// The view of a statement.
pub open spec fn stmt_view(s: Stmt) -> StmtV
    decreases s, 0int,
{
    match s {
        Stmt::ExprStmt(e) => StmtV::ExprStmt(expr_view(e)),
        Stmt::Let(n, e, m, t) => StmtV::Let(n@, expr_view(e), m, t),
        Stmt::Print(e) => StmtV::Print(expr_view(e)),
        Stmt::Return(e) => StmtV::Return(expr_view(e)),
        Stmt::Reassign(n, e) => StmtV::Reassign(n@, expr_view(e)),
    }
}

/// The view of an expression.
pub open spec fn expr_view(e: Expr) -> ExprV
    decreases e, 0int,
{
    match e {
        Expr::Block(v) => ExprV::Block(stmts_view(v@)),
        Expr::If { condition, then_branch, else_branch } => ExprV::If {
            condition: Box::new(expr_view(*condition)),
            then_branch: Box::new(expr_view(*then_branch)),
            else_branch: match else_branch {
                Some(b) => Some(Box::new(expr_view(*b))),
                None => None,
            },
        },
        Expr::Call(f, args) => ExprV::Call(Box::new(expr_view(*f)), exprs_view(args@)),
        Expr::Negate(x) => ExprV::Negate(Box::new(expr_view(*x))),
        Expr::Number(k) => ExprV::Number(k),
        Expr::NumberLiteral(n) => ExprV::NumberLiteral(n@),
        Expr::String(s) => ExprV::Str(s@),
        Expr::Bool(b) => ExprV::Bool(b),
        Expr::Add(l, r) => ExprV::Add(Box::new(expr_view(*l)), Box::new(expr_view(*r))),
        Expr::Sub(l, r) => ExprV::Sub(Box::new(expr_view(*l)), Box::new(expr_view(*r))),
        Expr::Mul(l, r) => ExprV::Mul(Box::new(expr_view(*l)), Box::new(expr_view(*r))),
        Expr::Div(l, r) => ExprV::Div(Box::new(expr_view(*l)), Box::new(expr_view(*r))),
        Expr::Var(n) => ExprV::Var(n@),
    }
}

impl View for Expr {
    type V = ExprV;

    open spec fn view(&self) -> ExprV {
        expr_view(*self)
    }
}

impl View for Stmt {
    type V = StmtV;

    open spec fn view(&self) -> StmtV {
        stmt_view(*self)
    }
}

#[derive(Debug)]
pub struct FnDecl {
    pub name: String,
    pub params: Vec<FnParam>,
    pub body: Vec<Stmt>,
    pub return_type: Option<TypeKind>,
}

#[derive(Clone, Debug)]
pub struct FnParam {
    pub name: String,
    pub mutable: bool,
    pub modifier: Option<ParamModifier>,
    pub ty: Option<TypeKind>,
}

#[derive(Clone, Copy, Debug, PartialEq, Eq, Structural)]
pub enum ParamModifier {
    Ref,
    Copy,
    Move,
}

#[derive(Debug, PartialEq, Clone)]
pub enum Value {
    Number(NumericKind),
    NumberLiteral(String),
    String(String),
    Bool(bool),
}

#[derive(Debug, PartialEq, Clone)]
pub enum Token {
    Assign,
    Bool(bool),
    Colon,
    Comma,
    Else,
    Equals,
    Ident(String),
    If,
    LBrace,
    LBracket,
    Let,
    LParen,
    Minus,
    Mut,
    Number(NumericKind),
    NumberLiteral(String),
    Plus,
    Print,
    RBrace,
    RBracket,
    Return,
    RParen,
    Slash,
    Star,
    String(String),
    Type(TypeKind),
}

/// A token with its text as a sequence of characters.
pub enum TokenV {
    Assign,
    Bool(bool),
    Colon,
    Comma,
    Else,
    Equals,
    Ident(Seq<char>),
    If,
    LBrace,
    LBracket,
    Let,
    LParen,
    Minus,
    Mut,
    Number(NumericKind),
    NumberLiteral(Seq<char>),
    Plus,
    Print,
    RBrace,
    RBracket,
    Return,
    RParen,
    Slash,
    Star,
    Str(Seq<char>),
    Type(TypeKind),
}

impl View for Token {
    type V = TokenV;

    open spec fn view(&self) -> TokenV {
        match self {
            Token::Assign => TokenV::Assign,
            Token::Bool(b) => TokenV::Bool(*b),
            Token::Colon => TokenV::Colon,
            Token::Comma => TokenV::Comma,
            Token::Else => TokenV::Else,
            Token::Equals => TokenV::Equals,
            Token::Ident(s) => TokenV::Ident(s@),
            Token::If => TokenV::If,
            Token::LBrace => TokenV::LBrace,
            Token::LBracket => TokenV::LBracket,
            Token::Let => TokenV::Let,
            Token::LParen => TokenV::LParen,
            Token::Minus => TokenV::Minus,
            Token::Mut => TokenV::Mut,
            Token::Number(n) => TokenV::Number(*n),
            Token::NumberLiteral(s) => TokenV::NumberLiteral(s@),
            Token::Plus => TokenV::Plus,
            Token::Print => TokenV::Print,
            Token::RBrace => TokenV::RBrace,
            Token::RBracket => TokenV::RBracket,
            Token::Return => TokenV::Return,
            Token::RParen => TokenV::RParen,
            Token::Slash => TokenV::Slash,
            Token::Star => TokenV::Star,
            Token::String(s) => TokenV::Str(s@),
            Token::Type(t) => TokenV::Type(*t),
        }
    }
}

} // verus!
