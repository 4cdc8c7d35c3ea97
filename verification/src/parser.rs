use vstd::prelude::*;

use crate::grammar::{Expr, ExprV, Stmt, StmtV, Token, TypeKind, expr_view, stmt_view, stmts_view};

verus! {

/// Why the tokens do not parse.
#[derive(Debug)]
pub enum ParseError {
    /// A `let` not followed by an identifier.
    ExpectedIdentifier,
    /// A `let` whose name (and type) is not followed by `=`.
    ExpectedAssign,
    /// A token, or the end of the tokens, where an expression must start.
    UnexpectedToken(Option<Token>),
}

/// The token at position `p`, if there is one.
pub open spec fn tok(t: Seq<Token>, p: int) -> Option<Token> {
    if 0 <= p < t.len() {
        Some(t[p])
    } else {
        None
    }
}

/// The position after reading one token at `p`: the end stays the end.
pub open spec fn adv(t: Seq<Token>, p: int) -> int {
    if 0 <= p < t.len() {
        p + 1
    } else {
        p
    }
}

/// What a parse gives back where a part parsed before it did not move forward
/// within the tokens; a parse that succeeds always does, so this is never reached.
pub open spec fn stalled<A>(t: Seq<Token>, q: int) -> Result<(A, int), ParseError> {
    Err(ParseError::UnexpectedToken(tok(t, q)))
}

/// A statement at `p`, and the position after it.
pub open spec fn parse_stmt_spec(t: Seq<Token>, p: int) -> Result<(StmtV, int), ParseError>
    decreases t.len() - p, 8int,
{
    match tok(t, p) {
        Some(Token::Print) => parse_print_spec(t, p),
        Some(Token::Let) => parse_let_spec(t, p),
        Some(Token::Ident(_)) => if tok(t, p + 1) matches Some(Token::Assign) {
            parse_assign_spec(t, p)
        } else {
            match parse_expr_spec(t, p) {
                Ok((e, q)) => Ok((StmtV::ExprStmt(e), q)),
                Err(x) => Err(x),
            }
        },
        Some(Token::Assign) => parse_assign_spec(t, p),
        Some(Token::Return) => match parse_expr_spec(t, p) {
            Ok((e, q)) => Ok((StmtV::Return(e), q)),
            Err(x) => Err(x),
        },
        Some(Token::If) => match parse_if_spec(t, p) {
            Ok((e, q)) => Ok((StmtV::ExprStmt(e), q)),
            Err(x) => Err(x),
        },
        _ => match parse_expr_spec(t, p) {
            Ok((e, q)) => Ok((StmtV::ExprStmt(e), q)),
            Err(x) => Err(x),
        },
    }
}

/// `let [mut] name [: type] = expr`, from the `let` at `p`.
pub open spec fn parse_let_spec(t: Seq<Token>, p: int) -> Result<(StmtV, int), ParseError>
    decreases t.len() - p, 7int,
{
    let p1 = adv(t, p);
    let mutable = tok(t, p1) matches Some(Token::Mut);
    let p2 = if mutable { adv(t, p1) } else { p1 };
    let p3 = adv(t, p2);
    match tok(t, p2) {
        Some(Token::Ident(name)) => {
            let has_colon = tok(t, p3) matches Some(Token::Colon);
            let p4 = adv(t, p3);
            let ty = if has_colon {
                match tok(t, p4) {
                    Some(Token::Type(ty)) => Some(ty),
                    _ => None,
                }
            } else {
                None::<TypeKind>
            };
            let p5 = if has_colon { adv(t, p4) } else { p3 };
            if tok(t, p5) matches Some(Token::Assign) {
                let p6 = p5 + 1;
                let right = if tok(t, p6) matches Some(Token::If) {
                    parse_if_spec(t, p6)
                } else {
                    parse_expr_spec(t, p6)
                };
                match right {
                    Ok((e, q)) => Ok((StmtV::Let(name@, e, mutable, ty), q)),
                    Err(x) => Err(x),
                }
            } else {
                Err(ParseError::ExpectedAssign)
            }
        },
        _ => Err(ParseError::ExpectedIdentifier),
    }
}

/// `name = expr` at `p`, or else an expression statement.
pub open spec fn parse_assign_spec(t: Seq<Token>, p: int) -> Result<(StmtV, int), ParseError>
    decreases t.len() - p, 7int,
{
    match tok(t, p) {
        Some(Token::Ident(name)) if tok(t, p + 1) matches Some(Token::Assign) => match parse_expr_spec(
            t,
            p + 2,
        ) {
            Ok((e, q)) => Ok((StmtV::Reassign(name@, e), q)),
            Err(x) => Err(x),
        },
        _ => match parse_expr_spec(t, p) {
            Ok((e, q)) => Ok((StmtV::ExprStmt(e), q)),
            Err(x) => Err(x),
        },
    }
}

/// `print ( expr )` from `p`; the tokens in the place of `print`, `(` and `)`
/// are read whatever they are.
pub open spec fn parse_print_spec(t: Seq<Token>, p: int) -> Result<(StmtV, int), ParseError>
    decreases t.len() - p, 7int,
{
    let p2 = adv(t, adv(t, p));
    match parse_expr_spec(t, p2) {
        Ok((e, q)) => Ok((StmtV::Print(e), adv(t, q))),
        Err(x) => Err(x),
    }
}

/// `if cond { ... } [else { ... } | else if ...]`, where the token at `p` is read
/// as the `if`.
pub open spec fn parse_if_spec(t: Seq<Token>, p: int) -> Result<(ExprV, int), ParseError>
    decreases t.len() - p, 6int,
{
    match parse_expr_spec(t, adv(t, p)) {
        Err(x) => Err(x),
        Ok((c, q1)) => if !(p < q1 <= t.len()) {
            stalled(t, q1)
        } else {
            match parse_block_spec(t, q1) {
                Err(x) => Err(x),
                Ok((b, q2)) => if !(p < q2 <= t.len()) {
                    stalled(t, q2)
                } else if tok(t, q2) matches Some(Token::Else) {
                    let q3 = q2 + 1;
                    let r = if tok(t, q3) matches Some(Token::If) {
                        parse_if_spec(t, q3)
                    } else {
                        parse_block_spec(t, q3)
                    };
                    match r {
                        Ok((e, q4)) => Ok(
                            (
                                ExprV::If {
                                    condition: Box::new(c),
                                    then_branch: Box::new(b),
                                    else_branch: Some(Box::new(e)),
                                },
                                q4,
                            ),
                        ),
                        Err(x) => Err(x),
                    }
                } else {
                    Ok(
                        (
                            ExprV::If {
                                condition: Box::new(c),
                                then_branch: Box::new(b),
                                else_branch: None,
                            },
                            q2,
                        ),
                    )
                }
            }
        },
    }
}

/// `{ stmts }`, where the token at `p` is read as the `{`.
pub open spec fn parse_block_spec(t: Seq<Token>, p: int) -> Result<(ExprV, int), ParseError>
    decreases t.len() - p, 10int,
{
    parse_block_rest_spec(t, adv(t, p), seq![])
}

/// The statements of a block from `q` on up to its `}`, after the statements `acc`.
pub open spec fn parse_block_rest_spec(t: Seq<Token>, q: int, acc: Seq<StmtV>) -> Result<
    (ExprV, int),
    ParseError,
>
    decreases t.len() - q, 9int,
{
    if tok(t, q) matches Some(Token::RBrace) {
        Ok((ExprV::Block(acc), q + 1))
    } else {
        match parse_stmt_spec(t, q) {
            Err(x) => Err(x),
            Ok((s, q2)) => if !(q < q2 <= t.len()) {
                stalled(t, q2)
            } else {
                parse_block_rest_spec(t, q2, acc.push(s))
            },
        }
    }
}

/// An expression: terms joined by `+` and `-`, grouped to the left.
pub open spec fn parse_expr_spec(t: Seq<Token>, p: int) -> Result<(ExprV, int), ParseError>
    decreases t.len() - p, 5int,
{
    match parse_term_spec(t, p) {
        Err(x) => Err(x),
        Ok((l, q)) => if !(p < q <= t.len()) {
            stalled(t, q)
        } else {
            parse_expr_rest_spec(t, q, l)
        },
    }
}

/// The `+ term` and `- term` parts of an expression from `q` on, after `left`.
pub open spec fn parse_expr_rest_spec(t: Seq<Token>, q: int, left: ExprV) -> Result<
    (ExprV, int),
    ParseError,
>
    decreases t.len() - q, 4int,
{
    match tok(t, q) {
        Some(Token::Plus) => match parse_term_spec(t, q + 1) {
            Err(x) => Err(x),
            Ok((r, q2)) => if !(q < q2 <= t.len()) {
                stalled(t, q2)
            } else {
                parse_expr_rest_spec(t, q2, ExprV::Add(Box::new(left), Box::new(r)))
            },
        },
        Some(Token::Minus) => match parse_term_spec(t, q + 1) {
            Err(x) => Err(x),
            Ok((r, q2)) => if !(q < q2 <= t.len()) {
                stalled(t, q2)
            } else {
                parse_expr_rest_spec(t, q2, ExprV::Sub(Box::new(left), Box::new(r)))
            },
        },
        _ => Ok((left, q)),
    }
}

/// A term: primaries joined by `*` and `/`, grouped to the left.
pub open spec fn parse_term_spec(t: Seq<Token>, p: int) -> Result<(ExprV, int), ParseError>
    decreases t.len() - p, 3int,
{
    match parse_primary_spec(t, p) {
        Err(x) => Err(x),
        Ok((l, q)) => if !(p < q <= t.len()) {
            stalled(t, q)
        } else {
            parse_term_rest_spec(t, q, l)
        },
    }
}

/// The `* primary` and `/ primary` parts of a term from `q` on, after `left`.
pub open spec fn parse_term_rest_spec(t: Seq<Token>, q: int, left: ExprV) -> Result<
    (ExprV, int),
    ParseError,
>
    decreases t.len() - q, 2int,
{
    match tok(t, q) {
        Some(Token::Star) => match parse_primary_spec(t, q + 1) {
            Err(x) => Err(x),
            Ok((r, q2)) => if !(q < q2 <= t.len()) {
                stalled(t, q2)
            } else {
                parse_term_rest_spec(t, q2, ExprV::Mul(Box::new(left), Box::new(r)))
            },
        },
        Some(Token::Slash) => match parse_primary_spec(t, q + 1) {
            Err(x) => Err(x),
            Ok((r, q2)) => if !(q < q2 <= t.len()) {
                stalled(t, q2)
            } else {
                parse_term_rest_spec(t, q2, ExprV::Div(Box::new(left), Box::new(r)))
            },
        },
        _ => Ok((left, q)),
    }
}

/// A primary expression: a negation, a literal, a variable, an `if`, a block,
/// or `return` and an expression.
pub open spec fn parse_primary_spec(t: Seq<Token>, p: int) -> Result<(ExprV, int), ParseError>
    decreases t.len() - p, 1int,
{
    match tok(t, p) {
        Some(Token::Minus) => match parse_primary_spec(t, p + 1) {
            Ok((e, q)) => Ok((ExprV::Negate(Box::new(e)), q)),
            Err(x) => Err(x),
        },
        Some(Token::NumberLiteral(n)) => Ok((ExprV::NumberLiteral(n@), p + 1)),
        Some(Token::String(s)) => Ok((ExprV::Str(s@), p + 1)),
        Some(Token::Bool(b)) => Ok((ExprV::Bool(b), p + 1)),
        Some(Token::Ident(name)) => Ok((ExprV::Var(name@), p + 1)),
        Some(Token::If) => parse_if_spec(t, p + 1),
        Some(Token::LBrace) => parse_block_spec(t, p + 1),
        Some(Token::Return) => parse_expr_spec(t, p + 1),
        other => Err(ParseError::UnexpectedToken(other)),
    }
}

/// The statements from `p` to the end of the tokens.
pub open spec fn parse_all_spec(t: Seq<Token>, p: int) -> Result<Seq<StmtV>, ParseError>
    decreases t.len() - p,
{
    if !(0 <= p < t.len()) {
        Ok(seq![])
    } else {
        match parse_stmt_spec(t, p) {
            Err(x) => Err(x),
            Ok((st, q)) => if !(p < q <= t.len()) {
                Err(ParseError::UnexpectedToken(tok(t, q)))
            } else {
                match parse_all_spec(t, q) {
                    Ok(rest) => Ok(seq![st] + rest),
                    Err(x) => Err(x),
                }
            },
        }
    }
}

/// `r`, with the parser left at `q`, is what `spec` describes.
pub open spec fn expr_outcome(
    r: Result<Expr, ParseError>,
    q: int,
    spec: Result<(ExprV, int), ParseError>,
) -> bool {
    match spec {
        Ok((v, q2)) => r matches Ok(e) && e@ == v && q == q2,
        Err(x) => r matches Err(y) && y == x,
    }
}

/// `r`, with the parser left at `q`, is what `spec` describes.
pub open spec fn stmt_outcome(
    r: Result<Stmt, ParseError>,
    q: int,
    spec: Result<(StmtV, int), ParseError>,
) -> bool {
    match spec {
        Ok((v, q2)) => r matches Ok(s) && s@ == v && q == q2,
        Err(x) => r matches Err(y) && y == x,
    }
}

/// Whether a borrowed token is the token `o`, or both are absent.
pub open spec fn same_token(r: Option<&Token>, o: Option<Token>) -> bool {
    match r {
        Some(x) => o == Some(*x),
        None => o is None,
    }
}

/// A copy of a token.
pub fn clone_token(t: &Token) -> (r: Token)
    ensures
        r == *t,
{
    match t {
        Token::Assign => Token::Assign,
        Token::Bool(b) => Token::Bool(*b),
        Token::Colon => Token::Colon,
        Token::Comma => Token::Comma,
        Token::Else => Token::Else,
        Token::Equals => Token::Equals,
        Token::Ident(s) => Token::Ident(s.clone()),
        Token::If => Token::If,
        Token::LBrace => Token::LBrace,
        Token::LBracket => Token::LBracket,
        Token::Let => Token::Let,
        Token::LParen => Token::LParen,
        Token::Minus => Token::Minus,
        Token::Mut => Token::Mut,
        Token::Number(n) => Token::Number(*n),
        Token::NumberLiteral(s) => Token::NumberLiteral(s.clone()),
        Token::Plus => Token::Plus,
        Token::Print => Token::Print,
        Token::RBrace => Token::RBrace,
        Token::RBracket => Token::RBracket,
        Token::Return => Token::Return,
        Token::RParen => Token::RParen,
        Token::Slash => Token::Slash,
        Token::Star => Token::Star,
        Token::String(s) => Token::String(s.clone()),
        Token::Type(ty) => Token::Type(*ty),
    }
}

/// A recursive-descent parser over a sequence of tokens.
pub struct Parser {
    pub tokens: Vec<Token>,
    pub pos: usize,
}

impl Parser {
    /// The token at the current position, if any.
    pub fn peek(&self) -> (r: Option<&Token>)
        ensures
            same_token(r, tok(self.tokens@, self.pos as int)),
    {
        if self.pos < self.tokens.len() {
            Some(&self.tokens[self.pos])
        } else {
            None
        }
    }

    /// The token `offset` places after the current position, if any.
    pub fn peek_ahead(&self, offset: usize) -> (r: Option<&Token>)
        requires
            self.pos + offset <= usize::MAX,
        ensures
            same_token(r, tok(self.tokens@, self.pos + offset)),
    {
        if self.pos + offset < self.tokens.len() {
            Some(&self.tokens[self.pos + offset])
        } else {
            None
        }
    }

    /// Reads the current token, if any, and moves past it.
    fn consume(&mut self) -> (r: Option<Token>)
        requires
            old(self).pos <= old(self).tokens.len(),
        ensures
            final(self).tokens@ == old(self).tokens@,
            r == tok(old(self).tokens@, old(self).pos as int),
            final(self).pos == adv(old(self).tokens@, old(self).pos as int),
    {
        if self.pos < self.tokens.len() {
            let t = clone_token(&self.tokens[self.pos]);
            self.pos = self.pos + 1;
            Some(t)
        } else {
            None
        }
    }

    /// Parses the statement at the current position and moves past it.
    pub fn try_parse_stmt(&mut self) -> (r: Result<Stmt, ParseError>)
        requires
            old(self).pos <= old(self).tokens.len(),
        ensures
            final(self).tokens@ == old(self).tokens@,
            final(self).pos <= final(self).tokens.len(),
            stmt_outcome(
                r,
                final(self).pos as int,
                parse_stmt_spec(old(self).tokens@, old(self).pos as int),
            ),
            r is Ok ==> final(self).pos > old(self).pos,
        decreases old(self).tokens@.len() - old(self).pos, 8int,
    {
        match self.peek() {
            Some(Token::Print) => self.parse_print(),
            Some(Token::Let) => self.parse_let_stmt(),
            Some(Token::Ident(_)) => {
                if let Some(Token::Assign) = self.peek_ahead(1) {
                    self.parse_assign_stmt()
                } else {
                    Ok(Stmt::ExprStmt(self.parse_expr()?))
                }
            },
            Some(Token::Assign) => self.parse_assign_stmt(),
            Some(Token::Return) => Ok(Stmt::Return(self.parse_expr()?)),
            Some(Token::If) => Ok(Stmt::ExprStmt(self.parse_if_expr()?)),
            _ => Ok(Stmt::ExprStmt(self.parse_expr()?)),
        }
    }

    /// Parses the statement at the current position, which must parse, and
    /// moves past it.
    pub fn parse_stmt(&mut self) -> (r: Stmt)
        requires
            old(self).pos <= old(self).tokens.len(),
            parse_stmt_spec(old(self).tokens@, old(self).pos as int) is Ok,
        ensures
            final(self).tokens@ == old(self).tokens@,
            final(self).pos <= final(self).tokens.len(),
            parse_stmt_spec(old(self).tokens@, old(self).pos as int) == Ok::<
                (StmtV, int),
                ParseError,
            >((r@, final(self).pos as int)),
    {
        match self.try_parse_stmt() {
            Ok(s) => s,
            Err(_) => {
                proof {
                    assert(false);
                }
                Stmt::ExprStmt(Expr::Bool(false))
            },
        }
    }

    fn parse_let_stmt(&mut self) -> (r: Result<Stmt, ParseError>)
        requires
            old(self).pos <= old(self).tokens.len(),
        ensures
            final(self).tokens@ == old(self).tokens@,
            final(self).pos <= final(self).tokens.len(),
            stmt_outcome(
                r,
                final(self).pos as int,
                parse_let_spec(old(self).tokens@, old(self).pos as int),
            ),
            r is Ok ==> final(self).pos > old(self).pos,
        decreases old(self).tokens@.len() - old(self).pos, 7int,
    {
        self.consume();
        let mut mutable = false;
        if matches!(self.peek(), Some(Token::Mut)) {
            self.consume();
            mutable = true;
        }
        match self.consume() {
            Some(Token::Ident(name)) => {
                let mut ty: Option<TypeKind> = None;
                if matches!(self.peek(), Some(Token::Colon)) {
                    self.consume();
                    ty = match self.consume() {
                        Some(Token::Type(t)) => Some(t),
                        _ => None,
                    };
                }
                if matches!(self.peek(), Some(Token::Assign)) {
                    self.consume();
                    let right = if matches!(self.peek(), Some(Token::If)) {
                        self.parse_if_expr()?
                    } else {
                        self.parse_expr()?
                    };
                    Ok(Stmt::Let(name, right, mutable, ty))
                } else {
                    Err(ParseError::ExpectedAssign)
                }
            },
            _ => Err(ParseError::ExpectedIdentifier),
        }
    }

    fn parse_assign_stmt(&mut self) -> (r: Result<Stmt, ParseError>)
        requires
            old(self).pos <= old(self).tokens.len(),
        ensures
            final(self).tokens@ == old(self).tokens@,
            final(self).pos <= final(self).tokens.len(),
            stmt_outcome(
                r,
                final(self).pos as int,
                parse_assign_spec(old(self).tokens@, old(self).pos as int),
            ),
            r is Ok ==> final(self).pos > old(self).pos,
        decreases old(self).tokens@.len() - old(self).pos, 7int,
    {
        if let Some(Token::Ident(name)) = self.peek() {
            let name = name.clone();
            if matches!(self.peek_ahead(1), Some(Token::Assign)) {
                self.consume();
                self.consume();
                let right = self.parse_expr()?;
                return Ok(Stmt::Reassign(name, right));
            }
        }
        Ok(Stmt::ExprStmt(self.parse_expr()?))
    }

    fn parse_if_expr(&mut self) -> (r: Result<Expr, ParseError>)
        requires
            old(self).pos <= old(self).tokens.len(),
        ensures
            final(self).tokens@ == old(self).tokens@,
            final(self).pos <= final(self).tokens.len(),
            expr_outcome(
                r,
                final(self).pos as int,
                parse_if_spec(old(self).tokens@, old(self).pos as int),
            ),
            r is Ok ==> final(self).pos > old(self).pos,
        decreases old(self).tokens@.len() - old(self).pos, 6int,
    {
        self.consume();
        let condition = Box::new(self.parse_expr()?);
        let then_branch = Box::new(self.parse_block_expr()?);
        let else_branch = if matches!(self.peek(), Some(Token::Else)) {
            self.consume();
            if matches!(self.peek(), Some(Token::If)) {
                Some(Box::new(self.parse_if_expr()?))
            } else {
                Some(Box::new(self.parse_block_expr()?))
            }
        } else {
            None
        };
        Ok(Expr::If { condition, then_branch, else_branch })
    }

    fn parse_block_expr(&mut self) -> (r: Result<Expr, ParseError>)
        requires
            old(self).pos <= old(self).tokens.len(),
        ensures
            final(self).tokens@ == old(self).tokens@,
            final(self).pos <= final(self).tokens.len(),
            expr_outcome(
                r,
                final(self).pos as int,
                parse_block_spec(old(self).tokens@, old(self).pos as int),
            ),
            r is Ok ==> final(self).pos > old(self).pos,
        decreases old(self).tokens@.len() - old(self).pos, 10int,
    {
        let ghost t = self.tokens@;
        let ghost p = self.pos as int;
        let mut stmts: Vec<Stmt> = Vec::new();
        self.consume();
        while !matches!(self.peek(), Some(Token::RBrace))
            invariant
                self.tokens@ == t,
                t == old(self).tokens@,
                p == old(self).pos,
                p <= self.pos <= t.len(),
                parse_block_rest_spec(t, self.pos as int, stmts_view(stmts@))
                    == parse_block_spec(t, p),
            decreases t.len() - self.pos,
        {
            let stmt = self.try_parse_stmt()?;
            let ghost old_stmts = stmts@;
            stmts.push(stmt);
            assert(stmts@.drop_last() =~= old_stmts);
        }
        self.consume();
        Ok(Expr::Block(stmts))
    }

    fn parse_expr(&mut self) -> (r: Result<Expr, ParseError>)
        requires
            old(self).pos <= old(self).tokens.len(),
        ensures
            final(self).tokens@ == old(self).tokens@,
            final(self).pos <= final(self).tokens.len(),
            expr_outcome(
                r,
                final(self).pos as int,
                parse_expr_spec(old(self).tokens@, old(self).pos as int),
            ),
            r is Ok ==> final(self).pos > old(self).pos,
        decreases old(self).tokens@.len() - old(self).pos, 5int,
    {
        let ghost t = self.tokens@;
        let ghost p = self.pos as int;
        let mut left = self.parse_term()?;
        loop
            invariant
                self.tokens@ == t,
                t == old(self).tokens@,
                p == old(self).pos,
                p < self.pos <= t.len(),
                parse_expr_rest_spec(t, self.pos as int, left@) == parse_expr_spec(t, p),
            ensures
                self.tokens@ == t,
                p < self.pos <= t.len(),
                parse_expr_spec(t, p) == Ok::<(ExprV, int), ParseError>((left@, self.pos as int)),
            decreases t.len() - self.pos,
        {
            match self.peek() {
                Some(Token::Plus) => {
                    self.consume();
                    let right = self.parse_term()?;
                    left = Expr::Add(Box::new(left), Box::new(right));
                },
                Some(Token::Minus) => {
                    self.consume();
                    let right = self.parse_term()?;
                    left = Expr::Sub(Box::new(left), Box::new(right));
                },
                _ => break,
            }
        }
        Ok(left)
    }

    fn parse_term(&mut self) -> (r: Result<Expr, ParseError>)
        requires
            old(self).pos <= old(self).tokens.len(),
        ensures
            final(self).tokens@ == old(self).tokens@,
            final(self).pos <= final(self).tokens.len(),
            expr_outcome(
                r,
                final(self).pos as int,
                parse_term_spec(old(self).tokens@, old(self).pos as int),
            ),
            r is Ok ==> final(self).pos > old(self).pos,
        decreases old(self).tokens@.len() - old(self).pos, 3int,
    {
        let ghost t = self.tokens@;
        let ghost p = self.pos as int;
        let mut left = self.parse_primary()?;
        loop
            invariant
                self.tokens@ == t,
                t == old(self).tokens@,
                p == old(self).pos,
                p < self.pos <= t.len(),
                parse_term_rest_spec(t, self.pos as int, left@) == parse_term_spec(t, p),
            ensures
                self.tokens@ == t,
                p < self.pos <= t.len(),
                parse_term_spec(t, p) == Ok::<(ExprV, int), ParseError>((left@, self.pos as int)),
            decreases t.len() - self.pos,
        {
            match self.peek() {
                Some(Token::Star) => {
                    self.consume();
                    let right = self.parse_primary()?;
                    left = Expr::Mul(Box::new(left), Box::new(right));
                },
                Some(Token::Slash) => {
                    self.consume();
                    let right = self.parse_primary()?;
                    left = Expr::Div(Box::new(left), Box::new(right));
                },
                _ => break,
            }
        }
        Ok(left)
    }

    fn parse_primary(&mut self) -> (r: Result<Expr, ParseError>)
        requires
            old(self).pos <= old(self).tokens.len(),
        ensures
            final(self).tokens@ == old(self).tokens@,
            final(self).pos <= final(self).tokens.len(),
            expr_outcome(
                r,
                final(self).pos as int,
                parse_primary_spec(old(self).tokens@, old(self).pos as int),
            ),
            r is Ok ==> final(self).pos > old(self).pos,
        decreases old(self).tokens@.len() - old(self).pos, 1int,
    {
        let token = self.consume();
        match token {
            Some(Token::Minus) => {
                let expr = self.parse_primary()?;
                Ok(Expr::Negate(Box::new(expr)))
            },
            Some(Token::NumberLiteral(n)) => Ok(Expr::NumberLiteral(n)),
            Some(Token::String(s)) => Ok(Expr::String(s)),
            Some(Token::Bool(b)) => Ok(Expr::Bool(b)),
            Some(Token::Ident(name)) => Ok(Expr::Var(name)),
            Some(Token::If) => self.parse_if_expr(),
            Some(Token::LBrace) => self.parse_block_expr(),
            Some(Token::Return) => self.parse_expr(),
            _ => Err(ParseError::UnexpectedToken(token)),
        }
    }

    fn parse_print(&mut self) -> (r: Result<Stmt, ParseError>)
        requires
            old(self).pos <= old(self).tokens.len(),
        ensures
            final(self).tokens@ == old(self).tokens@,
            final(self).pos <= final(self).tokens.len(),
            stmt_outcome(
                r,
                final(self).pos as int,
                parse_print_spec(old(self).tokens@, old(self).pos as int),
            ),
            r is Ok ==> final(self).pos > old(self).pos,
        decreases old(self).tokens@.len() - old(self).pos, 7int,
    {
        self.consume();
        self.consume();
        let expr = self.parse_expr()?;
        self.consume();
        Ok(Stmt::Print(expr))
    }
}

/// Parses statements until the tokens run out.
pub fn parse_program(tokens: Vec<Token>) -> (r: Result<Vec<Stmt>, ParseError>)
    ensures
        match parse_all_spec(tokens@, 0) {
            Ok(ss) => r matches Ok(v) && stmts_view(v@) == ss,
            Err(x) => r matches Err(y) && y == x,
        },
{
    let ghost t = tokens@;
    let mut parser = Parser { tokens, pos: 0 };
    let mut stmts: Vec<Stmt> = Vec::new();
    while parser.peek().is_some()
        invariant
            parser.tokens@ == t,
            t == tokens@,
            parser.pos <= t.len(),
            match parse_all_spec(t, parser.pos as int) {
                Ok(ss) => parse_all_spec(t, 0) == Ok::<Seq<StmtV>, ParseError>(
                    stmts_view(stmts@) + ss,
                ),
                Err(x) => parse_all_spec(t, 0) == Err::<Seq<StmtV>, ParseError>(x),
            },
        decreases t.len() - parser.pos,
    {
        let ghost p = parser.pos as int;
        let stmt = parser.try_parse_stmt()?;
        let ghost old_stmts = stmts@;
        stmts.push(stmt);
        proof {
            assert(stmts@.drop_last() =~= old_stmts);
            assert(stmts_view(stmts@) == stmts_view(old_stmts).push(stmt@));
            match parse_all_spec(t, parser.pos as int) {
                Ok(ss) => {
                    assert(stmts_view(old_stmts) + (seq![stmt@] + ss) =~= stmts_view(stmts@) + ss);
                },
                Err(_) => {},
            }
        }
    }
    assert(stmts_view(stmts@) + seq![] =~= stmts_view(stmts@));
    Ok(stmts)
}

} // verus!
