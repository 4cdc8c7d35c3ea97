use vstd::prelude::*;

use crate::analysis::{TypeError, check_spec, infer_spec, literal_fits, resolve_spec};
use crate::grammar::{Expr, Stmt, TypeBinding, TypeKind};
use crate::laws::{law_inferred_type_is_stable, lemma_unit_expected_is_none};
use crate::lower::{
    LowerError, LowerState, initial_state, lower_expr_spec, lower_items_spec, lower_stmt_spec,
    number_constant,
};
use crate::vir::{Constant, FuncV, Item, ValueId, constant_ty, value_ty_spec};

verus! {

/// Straight-line code: literals, variables, negation and the four arithmetic
/// operators, with no `if`, block or call.
pub open spec fn straight_line(e: Expr) -> bool
    decreases e,
{
    match e {
        Expr::NumberLiteral(_) | Expr::String(_) | Expr::Bool(_) | Expr::Var(_) => true,
        Expr::Add(l, r) | Expr::Sub(l, r) | Expr::Mul(l, r) | Expr::Div(l, r) => straight_line(*l)
            && straight_line(*r),
        Expr::Negate(i) => straight_line(*i),
        _ => false,
    }
}

/// A statement whose expression is straight-line code.
pub open spec fn straight_line_stmt(s: Stmt) -> bool {
    match s {
        Stmt::ExprStmt(e) | Stmt::Print(e) | Stmt::Return(e) | Stmt::Let(_, e, _, _)
        | Stmt::Reassign(_, e) => straight_line(e),
    }
}

/// The number of nodes of an expression: at least the number of instructions
/// that lowering it adds.
pub open spec fn expr_size(e: Expr) -> nat
    decreases e,
{
    match e {
        Expr::Add(l, r) | Expr::Sub(l, r) | Expr::Mul(l, r) | Expr::Div(l, r) => expr_size(*l)
            + expr_size(*r) + 1,
        Expr::Negate(i) => expr_size(*i) + 1,
        _ => 1,
    }
}

/// At least the number of instructions that lowering a statement adds.
pub open spec fn stmt_size(s: Stmt) -> nat {
    match s {
        Stmt::ExprStmt(e) | Stmt::Print(e) | Stmt::Return(e) | Stmt::Let(_, e, _, _)
        | Stmt::Reassign(_, e) => expr_size(e) + 1,
    }
}

/// The locals of lowering agree with the names of type checking: each name in
/// `env` is a local with the same type and mutability, whose value has that type.
pub open spec fn env_matches(st: LowerState, env: Map<Seq<char>, TypeBinding>) -> bool {
    forall|x: Seq<char>|
        #[trigger] env.contains_key(x) ==> {
            &&& st.locals.contains_key(x)
            &&& st.locals[x].ty == env[x].ty
            &&& st.locals[x].mutable == env[x].mutable
            &&& value_ty_spec(st.func, st.locals[x].value) == Some(env[x].ty)
        }
}

/// `g` extends `f`: the same block parameters and the instructions of `f` first.
pub open spec fn extends(f: FuncV, g: FuncV) -> bool {
    &&& g.block_params == f.block_params
    &&& f.insts.len() <= g.insts.len()
    &&& forall|i: int| 0 <= i < f.insts.len() ==> #[trigger] g.insts[i] == f.insts[i]
}

proof fn lemma_extends_keeps_types(f: FuncV, g: FuncV, v: ValueId)
    requires
        extends(f, g),
        value_ty_spec(f, v) is Some,
    ensures
        value_ty_spec(g, v) == value_ty_spec(f, v),
{
    if let ValueId::Inst(id) = v {
        assert(g.insts[id.0 as int] == f.insts[id.0 as int]);
    }
}

proof fn lemma_extends_keeps_env(s1: LowerState, s2: LowerState, env: Map<Seq<char>, TypeBinding>)
    requires
        env_matches(s1, env),
        extends(s1.func, s2.func),
        s2.locals == s1.locals,
    ensures
        env_matches(s2, env),
{
    assert forall|x: Seq<char>| #[trigger] env.contains_key(x) implies {
        &&& s2.locals.contains_key(x)
        &&& s2.locals[x].ty == env[x].ty
        &&& s2.locals[x].mutable == env[x].mutable
        &&& value_ty_spec(s2.func, s2.locals[x].value) == Some(env[x].ty)
    } by {
        lemma_extends_keeps_types(s1.func, s2.func, s1.locals[x].value);
    }
}

/// A literal that fits in its type reads as a constant of that type.
proof fn lemma_literal_constant(n: String, t: TypeKind)
    requires
        literal_fits(n@, t),
    ensures
        number_constant(n, t) matches Ok(c) && constant_ty(c) == t,
{
}

/// What lowering a straight-line expression gives: a value of `t` in a state
/// that extends the old one, with the same block and locals, and at most
/// `expr_size(e)` more instructions.
pub open spec fn lowered_as(st: LowerState, e: Expr, exp: Option<TypeKind>, t: TypeKind) -> bool {
    lower_expr_spec(st, e, exp) matches Ok((s2, v)) && {
        &&& value_ty_spec(s2.func, v) == Some(t)
        &&& s2.locals == st.locals
        &&& s2.cur == st.cur
        &&& extends(st.func, s2.func)
        &&& s2.func.insts.len() <= st.func.insts.len() + expr_size(e)
    }
}

/// Straight-line code that type checks at type `t`, expecting nothing or `t`,
/// lowers without error to a value of type `t`, where the locals agree with the
/// type environment and the instruction ids stay within `u32`.
pub proof fn law_typed_straight_line_lowers(
    st: LowerState,
    e: Expr,
    env: Map<Seq<char>, TypeBinding>,
    exp: Option<TypeKind>,
    t: TypeKind,
)
    requires
        straight_line(e),
        env_matches(st, env),
        infer_spec(e, env, exp) == Ok::<TypeKind, TypeError>(t),
        exp is None || exp == Some(t),
        st.func.insts.len() + expr_size(e) <= u32::MAX,
    ensures
        lowered_as(st, e, exp, t),
    decreases e,
{
    let n0 = st.func.insts.len();
    match e {
        Expr::NumberLiteral(n) => {
            lemma_literal_constant(n, t);
            let c = number_constant(n, t).unwrap();
            let (s2, v) = lower_expr_spec(st, e, exp).unwrap();
            assert(s2.func.insts[n0 as int] == crate::lower::const_inst(c));
        },
        Expr::String(_) | Expr::Bool(_) => {
            let (s2, v) = lower_expr_spec(st, e, exp).unwrap();
            assert(s2.func.insts.len() == n0 + 1);
        },
        Expr::Var(x) => {
            assert(env.contains_key(x@));
        },
        Expr::Negate(i) => {
            law_typed_straight_line_lowers(st, *i, env, exp, t);
            let (s1, iv) = lower_expr_spec(st, *i, exp).unwrap();
            let (s2, v) = lower_expr_spec(st, e, exp).unwrap();
            assert(s2.func.insts.len() == s1.func.insts.len() + 1);
        },
        Expr::Add(l, r) | Expr::Sub(l, r) | Expr::Mul(l, r) | Expr::Div(l, r) => {
            law_typed_straight_line_lowers(st, *l, env, exp, t);
            let (s1, lv) = lower_expr_spec(st, *l, exp).unwrap();
            lemma_extends_keeps_env(st, s1, env);
            if exp is None {
                law_inferred_type_is_stable(*r, env);
            }
            law_typed_straight_line_lowers(s1, *r, env, Some(t), t);
            let (s2, rv) = lower_expr_spec(s1, *r, Some(t)).unwrap();
            lemma_extends_keeps_types(s1.func, s2.func, lv);
            let (s3, v) = lower_expr_spec(st, e, exp).unwrap();
            assert(s3.func.insts.len() == s2.func.insts.len() + 1);
        },
        _ => {},
    }
}

/// Type checking a straight-line statement and then lowering the checked
/// statement succeeds, where the locals agree with the type environment and the
/// instruction ids stay within `u32`; afterwards they agree again.
pub proof fn law_checked_straight_line_stmt_lowers(
    st: LowerState,
    stmt: Stmt,
    env: Map<Seq<char>, TypeBinding>,
)
    requires
        straight_line_stmt(stmt),
        env_matches(st, env),
        check_spec(stmt, env) is Ok,
        st.func.insts.len() + stmt_size(stmt) <= u32::MAX,
    ensures
        ({
            let (checked, env2) = check_spec(stmt, env).unwrap();
            lower_stmt_spec(st, checked) matches Ok(st2) && env_matches(st2, env2)
                && st2.func.insts.len() <= st.func.insts.len() + stmt_size(stmt)
        }),
{
    reveal(lower_stmt_spec);
    match stmt {
        Stmt::ExprStmt(e) => {
            if e is Var {
                let x = e->Var_0;
                assert(env.contains_key(x@));
            } else {
                law_typed_straight_line_lowers(st, e, env, None, infer_spec(e, env, None).unwrap());
            }
        },
        Stmt::Print(e) | Stmt::Return(e) => {
            law_typed_straight_line_lowers(st, e, env, None, infer_spec(e, env, None).unwrap());
            let (s1, v) = lower_expr_spec(st, e, None).unwrap();
            lemma_extends_keeps_env(st, s1, env);
            let st2 = lower_stmt_spec(st, stmt).unwrap();
            assert(extends(s1.func, st2.func));
            lemma_extends_keeps_env(s1, st2, env);
        },
        Stmt::Let(x, e, m, d) => {
            let inferred = infer_spec(e, env, d).unwrap();
            let f = check_spec(stmt, env).unwrap().0->Let_3.unwrap();
            match d {
                None => law_inferred_type_is_stable(e, env),
                Some(dd) => {
                    if dd == TypeKind::Unit {
                        lemma_unit_expected_is_none(e, env);
                        law_inferred_type_is_stable(e, env);
                    } else {
                        assert(resolve_spec(dd, inferred) == Ok::<TypeKind, TypeError>(f));
                    }
                },
            }
            law_typed_straight_line_lowers(st, e, env, Some(f), f);
            let (s1, v) = lower_expr_spec(st, e, Some(f)).unwrap();
            lemma_extends_keeps_env(st, s1, env);
        },
        Stmt::Reassign(x, e) => {
            let ty = env[x@].ty;
            law_typed_straight_line_lowers(st, e, env, Some(ty), ty);
            let (s1, v) = lower_expr_spec(st, e, Some(ty)).unwrap();
            lemma_extends_keeps_env(st, s1, env);
        },
    }
}

/// `checked` is what type checking statements `i` on of `stmts` gives, in order,
/// starting from `env`: each statement passes, and its checked form is there.
pub open spec fn checked_in_order(
    stmts: Seq<Stmt>,
    checked: Seq<Stmt>,
    i: int,
    env: Map<Seq<char>, TypeBinding>,
) -> bool
    decreases stmts.len() - i,
{
    if i < 0 || i >= stmts.len() {
        true
    } else {
        match check_spec(stmts[i], env) {
            Err(_) => false,
            Ok((c, env1)) => checked[i] == c && checked_in_order(stmts, checked, i + 1, env1),
        }
    }
}

/// The sizes of statements `i` on.
pub open spec fn stmts_size(stmts: Seq<Stmt>, i: int) -> nat
    decreases stmts.len() - i,
{
    if i < 0 || i >= stmts.len() {
        0
    } else {
        stmt_size(stmts[i]) + stmts_size(stmts, i + 1)
    }
}

/// Statements as top-level items.
pub open spec fn stmt_items(stmts: Seq<Stmt>) -> Seq<Item> {
    stmts.map_values(|s: Stmt| Item::Stmt(s))
}

proof fn lemma_items_lower(
    st: LowerState,
    stmts: Seq<Stmt>,
    checked: Seq<Stmt>,
    i: int,
    env: Map<Seq<char>, TypeBinding>,
)
    requires
        0 <= i,
        checked.len() == stmts.len(),
        forall|j: int| 0 <= j < stmts.len() ==> straight_line_stmt(#[trigger] stmts[j]),
        checked_in_order(stmts, checked, i, env),
        env_matches(st, env),
        st.func.insts.len() + stmts_size(stmts, i) <= u32::MAX,
    ensures
        lower_items_spec(st, stmt_items(checked), i) is Ok,
    decreases stmts.len() - i,
{
    if i < stmts.len() {
        let (c, env1) = check_spec(stmts[i], env).unwrap();
        law_checked_straight_line_stmt_lowers(st, stmts[i], env);
        let st2 = lower_stmt_spec(st, c).unwrap();
        assert(stmt_items(checked)[i] == Item::Stmt(c));
        lemma_items_lower(st2, stmts, checked, i + 1, env1);
    }
}

/// A program of straight-line statements that pass type checking one after the
/// other, from an empty environment, lowers statement by statement without
/// error, where the instruction ids stay within `u32`.
pub proof fn law_checked_straight_line_program_lowers(stmts: Seq<Stmt>, checked: Seq<Stmt>)
    requires
        checked.len() == stmts.len(),
        forall|j: int| 0 <= j < stmts.len() ==> straight_line_stmt(#[trigger] stmts[j]),
        checked_in_order(stmts, checked, 0, Map::empty()),
        stmts_size(stmts, 0) <= u32::MAX,
    ensures
        lower_items_spec(initial_state(), stmt_items(checked), 0) is Ok,
{
    lemma_items_lower(initial_state(), stmts, checked, 0, Map::empty());
}

} // verus!
