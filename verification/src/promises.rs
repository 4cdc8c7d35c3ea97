use vstd::prelude::*;

use crate::analysis::{TypeError, infer_spec};
use crate::grammar::{Expr, ExprV, Stmt, Token, TypeBinding, TypeKind};
use crate::lexer::{lex_all, lex_step, LexStep, LexError};
use crate::lower::{LowerError, LowerState, ctx_ok, emit, lower_block_spec, lower_expr_spec, lower_stmt_spec, number_constant};
use crate::lowering_shape::{lemma_lower_block_keeps, lemma_lower_expr_keeps, expr_nodes, stmts_nodes};
use crate::parser::{ParseError, parse_expr_rest_spec, parse_expr_spec, tok};
use crate::ppv::constant_text;
use crate::text::float_syntax;
use crate::vir::{Constant, EffectV, InstV};

verus! {

// Negation.

/// Negating a value of a signed integer or floating-point type gives a value of
/// that type; negating a value of an unsigned type is refused.
pub proof fn law_negation_keeps_signed_types(
    e: Expr,
    env: Map<Seq<char>, TypeBinding>,
    exp: Option<TypeKind>,
    t: TypeKind,
)
    requires
        infer_spec(e, env, exp) == Ok::<TypeKind, TypeError>(t),
    ensures
        t == TypeKind::I8 || t == TypeKind::I16 || t == TypeKind::I32 || t == TypeKind::I64 || t
            == TypeKind::F32 || t == TypeKind::F64 ==> infer_spec(Expr::Negate(Box::new(e)), env, exp)
            == Ok::<TypeKind, TypeError>(t),
        t == TypeKind::U8 || t == TypeKind::U16 || t == TypeKind::U32 || t == TypeKind::U64
            ==> infer_spec(Expr::Negate(Box::new(e)), env, exp) == Err::<TypeKind, TypeError>(
            TypeError::NegateUnsigned(t),
        ),
{
}

// Additive operators.

/// The expression that a single token stands for, where it is a number literal
/// or a name.
pub open spec fn atom(x: Token) -> Option<ExprV> {
    match x {
        Token::NumberLiteral(n) => Some(ExprV::NumberLiteral(n@)),
        Token::Ident(n) => Some(ExprV::Var(n@)),
        _ => None,
    }
}

/// Whether a token goes on an arithmetic expression.
pub open spec fn continues_expr(x: Option<Token>) -> bool {
    x matches Some(Token::Plus) || x matches Some(Token::Minus) || x matches Some(Token::Star) || x matches Some(Token::Slash)
}

/// `+` and `-` have one precedence and group to the left: after an expression
/// `left`, the tokens `- a + b` (or `+ a - b`, `- a - b`, `+ a + b`), with `a`
/// and `b` single terms and nothing after them that goes on the expression,
/// give `(left - a) + b` (and so on), whatever `left` is.
pub proof fn law_additive_operators_group_left(t: Seq<Token>, q: int, left: ExprV)
    requires
        0 <= q,
        q + 4 <= t.len(),
        t[q] is Plus || t[q] is Minus,
        t[q + 2] is Plus || t[q + 2] is Minus,
        atom(t[q + 1]) is Some,
        atom(t[q + 3]) is Some,
        !continues_expr(tok(t, q + 4)),
    ensures
        ({
            let a = atom(t[q + 1]).unwrap();
            let b = atom(t[q + 3]).unwrap();
            let first = if t[q] is Plus {
                ExprV::Add(Box::new(left), Box::new(a))
            } else {
                ExprV::Sub(Box::new(left), Box::new(a))
            };
            let whole = if t[q + 2] is Plus {
                ExprV::Add(Box::new(first), Box::new(b))
            } else {
                ExprV::Sub(Box::new(first), Box::new(b))
            };
            parse_expr_rest_spec(t, q, left) == Ok::<(ExprV, int), ParseError>((whole, q + 4))
        }),
{
    let a = atom(t[q + 1]).unwrap();
    let b = atom(t[q + 3]).unwrap();
    lemma_atom_term(t, q + 1);
    lemma_atom_term(t, q + 3);
    let first = if t[q] is Plus {
        ExprV::Add(Box::new(left), Box::new(a))
    } else {
        ExprV::Sub(Box::new(left), Box::new(a))
    };
    let whole = if t[q + 2] is Plus {
        ExprV::Add(Box::new(first), Box::new(b))
    } else {
        ExprV::Sub(Box::new(first), Box::new(b))
    };
    assert(tok(t, q) == Some(t[q]));
    assert(tok(t, q + 2) == Some(t[q + 2]));
    assert(parse_expr_rest_spec(t, q + 4, whole) == Ok::<(ExprV, int), ParseError>((whole, q + 4)));
    assert(parse_expr_rest_spec(t, q + 2, first) == Ok::<(ExprV, int), ParseError>((whole, q + 4)));
}

/// A single term token, followed by a token that is neither `*` nor `/`, is a
/// term on its own.
proof fn lemma_atom_term(t: Seq<Token>, p: int)
    requires
        0 <= p < t.len(),
        atom(t[p]) is Some,
        !(tok(t, p + 1) matches Some(Token::Star)),
        !(tok(t, p + 1) matches Some(Token::Slash)),
    ensures
        crate::parser::parse_term_spec(t, p) == Ok::<(ExprV, int), ParseError>((atom(t[p]).unwrap(), p + 1)),
{
    assert(tok(t, p) == Some(t[p]));
    assert(crate::parser::parse_primary_spec(t, p) == Ok::<(ExprV, int), ParseError>((atom(t[p]).unwrap(), p + 1)));
    assert(crate::parser::parse_term_rest_spec(t, p + 1, atom(t[p]).unwrap()) == Ok::<(ExprV, int), ParseError>(
        (atom(t[p]).unwrap(), p + 1),
    ));
}

/// Three terms joined by `+` and `-` group to the left: `a - b + c` parses as
/// `(a - b) + c` and `a + b - c` as `(a + b) - c`.
pub proof fn law_three_terms_group_left(t: Seq<Token>)
    requires
        t.len() == 5,
        atom(t[0]) is Some,
        atom(t[2]) is Some,
        atom(t[4]) is Some,
        t[1] is Plus || t[1] is Minus,
        t[3] is Plus || t[3] is Minus,
    ensures
        ({
            let a = atom(t[0]).unwrap();
            let b = atom(t[2]).unwrap();
            let c = atom(t[4]).unwrap();
            let first = if t[1] is Plus {
                ExprV::Add(Box::new(a), Box::new(b))
            } else {
                ExprV::Sub(Box::new(a), Box::new(b))
            };
            let whole = if t[3] is Plus {
                ExprV::Add(Box::new(first), Box::new(c))
            } else {
                ExprV::Sub(Box::new(first), Box::new(c))
            };
            parse_expr_spec(t, 0) == Ok::<(ExprV, int), ParseError>((whole, 5))
        }),
{
    let a = atom(t[0]).unwrap();
    assert(tok(t, 0) == Some(t[0]));
    assert(tok(t, 1) == Some(t[1]));
    reveal_with_fuel(crate::parser::parse_primary_spec, 1);
    reveal_with_fuel(crate::parser::parse_term_rest_spec, 1);
    assert(crate::parser::parse_term_spec(t, 0) == Ok::<(ExprV, int), ParseError>((a, 1)));
    law_additive_operators_group_left(t, 1, a);
}

/// `*` and `/` group to the left, and bind tighter than `+` and `-`: of three
/// term tokens `a x b y c`, the operators `*` and `/` join first, then `+` and
/// `-` from the left.
pub proof fn law_operator_precedence(t: Seq<Token>)
    requires
        t.len() == 5,
        atom(t[0]) is Some,
        atom(t[2]) is Some,
        atom(t[4]) is Some,
        t[1] is Plus || t[1] is Minus || t[1] is Star || t[1] is Slash,
        t[3] is Plus || t[3] is Minus || t[3] is Star || t[3] is Slash,
    ensures
        ({
            let a = atom(t[0]).unwrap();
            let b = atom(t[2]).unwrap();
            let c = atom(t[4]).unwrap();
            let whole = if (t[1] is Star || t[1] is Slash) || !(t[3] is Star || t[3] is Slash) {
                binary(t[3], binary(t[1], a, b), c)
            } else {
                binary(t[1], a, binary(t[3], b, c))
            };
            parse_expr_spec(t, 0) == Ok::<(ExprV, int), ParseError>((whole, 5))
        }),
{
    let a = atom(t[0]).unwrap();
    let b = atom(t[2]).unwrap();
    let c = atom(t[4]).unwrap();
    assert(tok(t, 0) == Some(t[0]));
    assert(tok(t, 1) == Some(t[1]));
    assert(tok(t, 2) == Some(t[2]));
    assert(tok(t, 3) == Some(t[3]));
    assert(tok(t, 4) == Some(t[4]));
    assert(tok(t, 5) == None::<Token>);
    assert(crate::parser::parse_primary_spec(t, 0) == Ok::<(ExprV, int), ParseError>((a, 1)));
    assert(crate::parser::parse_primary_spec(t, 2) == Ok::<(ExprV, int), ParseError>((b, 3)));
    assert(crate::parser::parse_primary_spec(t, 4) == Ok::<(ExprV, int), ParseError>((c, 5)));
    if t[1] is Star || t[1] is Slash {
        let ab = binary(t[1], a, b);
        if t[3] is Star || t[3] is Slash {
            let abc = binary(t[3], ab, c);
            assert(crate::parser::parse_term_rest_spec(t, 5, abc) == Ok::<(ExprV, int), ParseError>((abc, 5)));
            assert(crate::parser::parse_term_rest_spec(t, 3, ab) == Ok::<(ExprV, int), ParseError>((abc, 5)));
            assert(crate::parser::parse_term_rest_spec(t, 1, a) == Ok::<(ExprV, int), ParseError>((abc, 5)));
            assert(parse_expr_rest_spec(t, 5, abc) == Ok::<(ExprV, int), ParseError>((abc, 5)));
        } else {
            assert(crate::parser::parse_term_rest_spec(t, 3, ab) == Ok::<(ExprV, int), ParseError>((ab, 3)));
            assert(crate::parser::parse_term_rest_spec(t, 1, a) == Ok::<(ExprV, int), ParseError>((ab, 3)));
            lemma_atom_term(t, 4);
            let abc = binary(t[3], ab, c);
            assert(parse_expr_rest_spec(t, 5, abc) == Ok::<(ExprV, int), ParseError>((abc, 5)));
            assert(parse_expr_rest_spec(t, 3, ab) == Ok::<(ExprV, int), ParseError>((abc, 5)));
        }
    } else {
        lemma_atom_term(t, 0);
        if t[3] is Star || t[3] is Slash {
            let bc = binary(t[3], b, c);
            assert(crate::parser::parse_term_rest_spec(t, 5, bc) == Ok::<(ExprV, int), ParseError>((bc, 5)));
            assert(crate::parser::parse_term_rest_spec(t, 3, b) == Ok::<(ExprV, int), ParseError>((bc, 5)));
            assert(crate::parser::parse_term_spec(t, 2) == Ok::<(ExprV, int), ParseError>((bc, 5)));
            let abc = binary(t[1], a, bc);
            assert(parse_expr_rest_spec(t, 5, abc) == Ok::<(ExprV, int), ParseError>((abc, 5)));
            assert(parse_expr_rest_spec(t, 1, a) == Ok::<(ExprV, int), ParseError>((abc, 5)));
        } else {
            law_additive_operators_group_left(t, 1, a);
        }
    }
}

/// The expression of a binary operator token on two operands.
pub open spec fn binary(op: Token, l: ExprV, r: ExprV) -> ExprV {
    match op {
        Token::Plus => ExprV::Add(Box::new(l), Box::new(r)),
        Token::Minus => ExprV::Sub(Box::new(l), Box::new(r)),
        Token::Star => ExprV::Mul(Box::new(l), Box::new(r)),
        _ => ExprV::Div(Box::new(l), Box::new(r)),
    }
}

// Line comments.

/// A line comment runs from `//` to the end of its line: lexing from the `//`
/// gives what lexing from the next newline gives (or from the end of the input
/// where no newline follows).
pub proof fn law_line_comment_is_skipped(s: Seq<char>, p: int, j: int)
    requires
        0 <= p,
        p + 1 < s.len(),
        s[p] == '/',
        s[p + 1] == '/',
        p + 2 <= j <= s.len(),
        j < s.len() ==> s[j] == '\n',
        forall|k: int| p + 2 <= k < j ==> #[trigger] s[k] != '\n',
    ensures
        lex_step(s, p) == lex_step(s, j),
        lex_all(s, p) == lex_all(s, j),
{
    lemma_line_end(s, p + 2, j);
    assert(crate::lexer::skip_trivia(s, p) == crate::lexer::skip_trivia(s, j));
}

proof fn lemma_line_end(s: Seq<char>, i: int, j: int)
    requires
        0 <= i <= j <= s.len(),
        j < s.len() ==> s[j] == '\n',
        forall|k: int| i <= k < j ==> #[trigger] s[k] != '\n',
    ensures
        crate::lexer::line_end(s, i) == j,
    decreases j - i,
{
    if i < j {
        lemma_line_end(s, i + 1, j);
    }
}

// Block comments.

/// A `*/` starts at `j`, and no `*/` starts between `a` and `j`.
pub open spec fn first_close(s: Seq<char>, a: int, j: int) -> bool {
    &&& a <= j
    &&& j + 1 < s.len()
    &&& s[j] == '*'
    &&& s[j + 1] == '/'
    &&& forall|k: int| a <= k < j ==> !(#[trigger] s[k] == '*' && s[k + 1] == '/')
}

/// No `*/` starts at `a` or later.
pub open spec fn no_close(s: Seq<char>, a: int) -> bool {
    forall|k: int| a <= k && k + 1 < s.len() ==> !(#[trigger] s[k] == '*' && s[k + 1] == '/')
}

proof fn lemma_comment_closes(s: Seq<char>, a: int, i: int, prev: bool, j: int)
    requires
        0 <= a <= i <= j + 1,
        prev == (a < i && s[i - 1] == '*'),
        first_close(s, a, j),
    ensures
        crate::lexer::block_comment_end(s, i, prev) == Some(j + 2),
    decreases j + 1 - i,
{
    if prev && s[i] == '/' {
        if i - 1 < j {
            assert(s[i - 1] == '*' && s[i - 1 + 1] == '/');
        }
    } else {
        if i == j + 1 {
            assert(prev);
        }
        lemma_comment_closes(s, a, i + 1, s[i] == '*', j);
    }
}

proof fn lemma_comment_open(s: Seq<char>, a: int, i: int, prev: bool)
    requires
        0 <= a <= i,
        prev == (a < i && s[i - 1] == '*'),
        no_close(s, a),
    ensures
        crate::lexer::block_comment_end(s, i, prev) is None,
    decreases s.len() - i,
{
    if i < s.len() {
        if prev && s[i] == '/' {
            assert(s[i - 1] == '*' && s[i - 1 + 1] == '/');
        }
        lemma_comment_open(s, a, i + 1, s[i] == '*');
    }
}

/// A block comment ends just past the first `*/` after its `/*`, whatever stands
/// between, newlines included: lexing from the `/*` gives what lexing from just
/// past that `*/` gives, one token or all of them.
pub proof fn law_block_comment_is_skipped(s: Seq<char>, p: int, j: int)
    requires
        0 <= p,
        p + 1 < s.len(),
        s[p] == '/',
        s[p + 1] == '*',
        first_close(s, p + 2, j),
    ensures
        lex_step(s, p) == lex_step(s, j + 2),
        lex_all(s, p) == lex_all(s, j + 2),
{
    lemma_comment_closes(s, p + 2, p + 2, false, j);
    assert(crate::lexer::skip_trivia(s, p) == crate::lexer::skip_trivia(s, j + 2));
}

/// A block comment with no `*/` after its `/*` runs to the end of the input,
/// which is an error.
pub proof fn law_unclosed_block_comment(s: Seq<char>, p: int)
    requires
        0 <= p,
        p + 1 < s.len(),
        s[p] == '/',
        s[p + 1] == '*',
        no_close(s, p + 2),
    ensures
        lex_step(s, p) == Err::<LexStep, LexError>(LexError::UnterminatedComment),
        lex_all(s, p) == Err::<(Seq<crate::grammar::TokenV>, Option<char>), LexError>(
            LexError::UnterminatedComment,
        ),
{
    lemma_comment_open(s, p + 2, p + 2, false);
}

// Floating-point constants.

/// A floating-point literal lowers to a constant that prints as the literal
/// itself, alike for `f32` and `f64`, and the printed text lowers again to a
/// constant that prints the same.
pub proof fn law_float_constant_prints_its_literal(n: String, ty: TypeKind, n2: String)
    requires
        ty == TypeKind::F32 || ty == TypeKind::F64,
        float_syntax(n@),
        n2@ == n@,
    ensures
        number_constant(n, ty) is Ok,
        constant_text(number_constant(n, ty).unwrap()) == n@,
        constant_text(Constant::F32(n)) == constant_text(Constant::F64(n)),
        number_constant(n2, ty) is Ok,
        constant_text(number_constant(n2, ty).unwrap()) == constant_text(
            number_constant(n, ty).unwrap(),
        ),
{
}

// Printing.

/// `print(e)` as a statement prints the value that lowering `e` gives: the last
/// instruction added is a print of that value.
pub proof fn law_print_statement_prints_its_value(st: LowerState, e: Expr)
    requires
        lower_stmt_spec(st, Stmt::Print(e)) is Ok,
    ensures
        ({
            let (s1, v) = lower_expr_spec(st, e, None).unwrap();
            let t = lower_stmt_spec(st, Stmt::Print(e)).unwrap();
            t.func.insts.len() == s1.func.insts.len() + 1 && t.func.insts.last() == InstV::Effect(
                EffectV::Print { value: v },
            )
        }),
{
    reveal(lower_stmt_spec);
}

/// `print(e)` inside a block prints the value that lowering `e` gives: the
/// instruction right after those of `e` is a print of that value, whatever the
/// block lowers after it.
pub proof fn law_print_in_block_prints_its_value(
    st: LowerState,
    stmts: Seq<Stmt>,
    i: int,
    e: Expr,
    exp: Option<TypeKind>,
    last: crate::vir::ValueId,
)
    requires
        ctx_ok(st),
        0 <= i < stmts.len(),
        stmts[i] == Stmt::Print(e),
        lower_block_spec(st, stmts, i, exp, last) is Ok,
        st.func.blocks.len() + 3 * stmts_nodes(stmts, i) <= u32::MAX,
    ensures
        ({
            let (s1, v) = lower_expr_spec(st, e, None).unwrap();
            let t = lower_block_spec(st, stmts, i, exp, last).unwrap().0;
            s1.func.insts.len() < t.func.insts.len() && t.func.insts[s1.func.insts.len() as int]
                == InstV::Effect(EffectV::Print { value: v })
        }),
{
    lemma_lower_expr_keeps(st, e, None);
    let (s1, v) = lower_expr_spec(st, e, None).unwrap();
    let s2 = emit(s1, InstV::Effect(EffectV::Print { value: v }));
    lemma_lower_block_keeps(s2, stmts, i + 1, exp, last);
    assert(s2.func.insts[s1.func.insts.len() as int] == InstV::Effect(EffectV::Print { value: v }));
}

} // verus!
