use vstd::prelude::*;

use crate::grammar::{Expr, Stmt, TypeKind};
use crate::lower::{
    LowerState, arith_ty, const_inst, ctx_ok, emit, emit_const_spec, jump_inst, lower_block_spec,
    lower_expr_spec,
};
use crate::vir::{BlockId, Constant, EffectV, InstId, InstV, ParamId, ValueId, value_ty_spec};

verus! {

/// The number of nodes of an expression, the statements of its blocks included:
/// lowering it adds at most three blocks per node.
pub open spec fn expr_nodes(e: Expr) -> nat
    decreases e, 1int,
{
    match e {
        Expr::If { condition, then_branch, else_branch } => expr_nodes(*condition) + expr_nodes(
            *then_branch,
        ) + match else_branch {
            Some(x) => expr_nodes(*x),
            None => 0,
        } + 1,
        Expr::Block(stmts) => stmts_nodes(stmts@, 0) + 1,
        Expr::Add(l, r) | Expr::Sub(l, r) | Expr::Mul(l, r) | Expr::Div(l, r) => expr_nodes(*l)
            + expr_nodes(*r) + 1,
        Expr::Negate(i) => expr_nodes(*i) + 1,
        _ => 1,
    }
}

/// The nodes of the expressions of statements `i` on.
pub open spec fn stmts_nodes(stmts: Seq<Stmt>, i: int) -> nat
    decreases stmts, stmts.len() - i,
{
    if i < 0 || i >= stmts.len() {
        0
    } else {
        let e = match stmts[i] {
            Stmt::ExprStmt(e) | Stmt::Print(e) | Stmt::Return(e) | Stmt::Let(_, e, _, _)
            | Stmt::Reassign(_, e) => e,
        };
        expr_nodes(e) + stmts_nodes(stmts, i + 1)
    }
}

/// What lowering keeps from state `s` in state `t`: blocks, instructions and
/// block parameters are only added; of the blocks that exist, only the current
/// one gains instructions, at its end; the current block of `t` exists and is
/// the one of `s` or a new one; at most `3 * n` blocks are added.
pub open spec fn keeps(s: LowerState, t: LowerState, n: nat) -> bool {
    &&& s.func.blocks.len() <= t.func.blocks.len() <= s.func.blocks.len() + 3 * n
    &&& t.cur.0 < t.func.blocks.len()
    &&& (t.cur == s.cur || t.cur.0 >= s.func.blocks.len())
    &&& forall|b: int|
        0 <= b < s.func.blocks.len() && b != s.cur.0 ==> #[trigger] t.func.blocks[b] == s.func.blocks[b]
    &&& s.func.blocks[s.cur.0 as int].params == t.func.blocks[s.cur.0 as int].params
    &&& s.func.blocks[s.cur.0 as int].insts.len() <= t.func.blocks[s.cur.0 as int].insts.len()
    &&& forall|k: int|
        0 <= k < s.func.blocks[s.cur.0 as int].insts.len() ==> #[trigger] t.func.blocks[s.cur.0 as int].insts[k]
            == s.func.blocks[s.cur.0 as int].insts[k]
    &&& s.func.insts.len() <= t.func.insts.len()
    &&& forall|i: int| 0 <= i < s.func.insts.len() ==> #[trigger] t.func.insts[i] == s.func.insts[i]
    &&& s.func.block_params.len() <= t.func.block_params.len()
    &&& forall|i: int|
        0 <= i < s.func.block_params.len() ==> #[trigger] t.func.block_params[i]
            == s.func.block_params[i]
}

proof fn lemma_keeps_trans(a: LowerState, b: LowerState, c: LowerState, n1: nat, n2: nat)
    requires
        ctx_ok(a),
        keeps(a, b, n1),
        keeps(b, c, n2),
    ensures
        keeps(a, c, n1 + n2),
{
    let k = a.cur.0 as int;
    if b.cur == a.cur {
        assert forall|j: int| 0 <= j < a.func.blocks[k].insts.len() implies #[trigger] c.func.blocks[k].insts[j]
            == a.func.blocks[k].insts[j] by {
            assert(b.func.blocks[k].insts[j] == a.func.blocks[k].insts[j]);
        }
    } else {
        assert(c.func.blocks[k] == b.func.blocks[k]);
    }
    assert(3 * n1 + 3 * n2 == 3 * (n1 + n2));
}

proof fn lemma_keeps_emit(s: LowerState, inst: InstV)
    requires
        ctx_ok(s),
    ensures
        keeps(s, emit(s, inst), 0),
{
}

proof fn lemma_keeps_refl(s: LowerState)
    requires
        ctx_ok(s),
    ensures
        keeps(s, s, 0),
{
}

proof fn lemma_keeps_more(s: LowerState, t: LowerState, n: nat, m: nat)
    requires
        keeps(s, t, n),
        n <= m,
    ensures
        keeps(s, t, m),
{
}

/// Lowering an expression keeps the state as `keeps` says, where the block ids
/// that it may add fit in `u32`.
pub proof fn lemma_lower_expr_keeps(st: LowerState, e: Expr, exp: Option<TypeKind>)
    requires
        ctx_ok(st),
        lower_expr_spec(st, e, exp) is Ok,
        st.func.blocks.len() + 3 * expr_nodes(e) <= u32::MAX,
    ensures
        keeps(st, lower_expr_spec(st, e, exp).unwrap().0, expr_nodes(e)),
    decreases e, 1int,
{
    let t = lower_expr_spec(st, e, exp).unwrap().0;
    match e {
        Expr::NumberLiteral(_) | Expr::String(_) | Expr::Bool(_) => {
            lemma_keeps_emit(st, t.func.insts.last());
            lemma_keeps_more(st, t, 0, 1);
        },
        Expr::Var(_) => {
            lemma_keeps_refl(st);
            lemma_keeps_more(st, t, 0, 1);
        },
        Expr::Negate(i) => {
            lemma_lower_expr_keeps(st, *i, exp);
            let (s1, v) = lower_expr_spec(st, *i, exp).unwrap();
            lemma_keeps_emit(s1, t.func.insts.last());
            lemma_keeps_trans(st, s1, t, expr_nodes(*i), 0);
            lemma_keeps_more(st, t, expr_nodes(*i), expr_nodes(e));
        },
        Expr::Add(l, r) | Expr::Sub(l, r) | Expr::Mul(l, r) | Expr::Div(l, r) => {
            lemma_lower_expr_keeps(st, *l, exp);
            let (s1, lv) = lower_expr_spec(st, *l, exp).unwrap();
            let ty = arith_ty(s1, lv, exp).unwrap();
            lemma_lower_expr_keeps(s1, *r, Some(ty));
            let (s2, rv) = lower_expr_spec(s1, *r, Some(ty)).unwrap();
            lemma_keeps_trans(st, s1, s2, expr_nodes(*l), expr_nodes(*r));
            lemma_keeps_emit(s2, t.func.insts.last());
            lemma_keeps_trans(st, s2, t, expr_nodes(*l) + expr_nodes(*r), 0);
            lemma_keeps_more(st, t, expr_nodes(*l) + expr_nodes(*r), expr_nodes(e));
        },
        Expr::If { condition, then_branch, else_branch } => {
            lemma_if_keeps(st, e, exp);
        },
        Expr::Block(stmts) => {
            let (s1, v0) = emit_const_spec(st, Constant::I64(0));
            lemma_keeps_emit(st, const_inst(Constant::I64(0)));
            lemma_lower_block_keeps(s1, stmts@, 0, exp, v0);
            lemma_keeps_trans(st, s1, t, 0, stmts_nodes(stmts@, 0));
            lemma_keeps_more(st, t, stmts_nodes(stmts@, 0), expr_nodes(e));
        },
        _ => {},
    }
}

/// The branch that ends the block of an `if`'s condition `cv`, where the
/// function had `k` blocks: to block `k` for then and `k + 1` for else.
pub open spec fn if_branch(cv: ValueId, k: nat) -> InstV {
    InstV::Effect(
        EffectV::Branch {
            cond: cv,
            then_block: BlockId(k as u32),
            then_args: seq![],
            else_block: BlockId((k + 1) as u32),
            else_args: seq![],
        },
    )
}

/// The state in which an `if`'s then branch is lowered, after its condition
/// gave `(s1, cv)`: three new blocks, the branch, and the then block current.
pub open spec fn if_then_state(s1: LowerState, cv: ValueId) -> LowerState {
    let k = s1.func.blocks.len();
    LowerState {
        func: crate::vir::add_inst(
            crate::vir::add_block(crate::vir::add_block(crate::vir::add_block(s1.func))),
            s1.cur,
            if_branch(cv, k),
        ),
        cur: BlockId(k as u32),
        locals: s1.locals,
    }
}

/// The shape of a lowered `if`: after the condition's instructions, its block
/// ends in a branch to two new blocks `k` and `k + 1`; lowering goes on in a
/// third new block `k + 2`, the join block, which holds no instruction and one
/// parameter, of the type of the then value; that parameter is the value of the
/// `if`.
pub open spec fn if_facts(st: LowerState, e: Expr, exp: Option<TypeKind>) -> bool {
    match e {
        Expr::If { condition, then_branch, else_branch } => {
            let (s1, cv) = lower_expr_spec(st, *condition, Some(TypeKind::Bool)).unwrap();
            let (t, v) = lower_expr_spec(st, e, exp).unwrap();
            let (s3, tv) = lower_expr_spec(if_then_state(s1, cv), *then_branch, None).unwrap();
            let k = s1.func.blocks.len();
            let c = s1.cur.0 as int;
            let n = s1.func.blocks[c].insts.len();
            &&& n < t.func.blocks[c].insts.len()
            &&& t.func.insts[t.func.blocks[c].insts[n as int].0 as int] == if_branch(cv, k)
            &&& t.cur == BlockId((k + 2) as u32)
            &&& t.func.blocks[k + 2int].insts.len() == 0
            &&& v matches ValueId::Param(p) && t.func.blocks[k + 2int].params == seq![p] && p.0
                < t.func.block_params.len() && t.func.block_params[p.0 as int].block == BlockId(
                (k + 2) as u32,
            ) && Some(t.func.block_params[p.0 as int].ty) == value_ty_spec(s3.func, tv)
        },
        _ => true,
    }
}

proof fn lemma_if_keeps(st: LowerState, e: Expr, exp: Option<TypeKind>)
    requires
        ctx_ok(st),
        e is If,
        lower_expr_spec(st, e, exp) is Ok,
        st.func.blocks.len() + 3 * expr_nodes(e) <= u32::MAX,
    ensures
        keeps(st, lower_expr_spec(st, e, exp).unwrap().0, expr_nodes(e)),
        lower_expr_spec(st, e, exp).unwrap().0.func.insts.len() <= u32::MAX
            && lower_expr_spec(st, e, exp).unwrap().0.func.block_params.len() <= u32::MAX
            ==> if_facts(st, e, exp),
    decreases e, 0int,
{
    let t = lower_expr_spec(st, e, exp).unwrap().0;
    if let Expr::If { condition, then_branch, else_branch } = e {
        lemma_lower_expr_keeps(st, *condition, Some(TypeKind::Bool));
        let (s1, cv) = lower_expr_spec(st, *condition, Some(TypeKind::Bool)).unwrap();
        let k = s1.func.blocks.len();
        let tb = BlockId(k as u32);
        let eb = BlockId((k + 1) as u32);
        let jb = BlockId((k + 2) as u32);
        let s2 = if_then_state(s1, cv);
        lemma_lower_expr_keeps(s2, *then_branch, None);
        let (s3, tv) = lower_expr_spec(s2, *then_branch, None).unwrap();
        let rt = value_ty_spec(s3.func, tv).unwrap();
        let s4 = LowerState { cur: eb, ..emit(s3, jump_inst(jb, tv)) };
        let nt = expr_nodes(*then_branch);
        let ne: nat = match else_branch {
            Some(x) => expr_nodes(*x),
            None => 0,
        };
        let (s5, ev) = match else_branch {
            Some(x) => {
                lemma_lower_expr_keeps(s4, *x, Some(rt));
                lower_expr_spec(s4, *x, Some(rt)).unwrap()
            },
            None => emit_const_spec(s4, Constant::I32(0)),
        };
        assert(keeps(s4, s5, ne));
        let f6 = emit(s5, jump_inst(jb, ev)).func;
        assert(t.func == crate::vir::add_param(f6, jb, rt));
        assert(t.cur == jb);
        assert(3 * expr_nodes(e) >= 3 * expr_nodes(*condition) + 3 * nt + 3 * ne + 3);
        if t.func.insts.len() <= u32::MAX && t.func.block_params.len() <= u32::MAX {
            let c = s1.cur.0 as int;
            let n = s1.func.blocks[c].insts.len();
            let bid: int = s2.func.insts.len() - 1;
            assert(s2.func.blocks[c].insts[n as int].0 == bid);
            assert(s2.func.insts[bid] == if_branch(cv, k));
            assert(s3.func.blocks[c] == s2.func.blocks[c]);
            assert(s4.func.blocks[c] == s2.func.blocks[c]);
            assert(s5.func.blocks[c] == s2.func.blocks[c]);
            assert(t.func.blocks[c].insts == s2.func.blocks[c].insts);
            assert(t.func.insts[bid] == if_branch(cv, k));
            let j: int = k + 2int;
            assert(s3.func.blocks[j] == s2.func.blocks[j]);
            assert(s4.func.blocks[j] == s2.func.blocks[j]);
            assert(s5.func.blocks[j] == s2.func.blocks[j]);
            assert(f6.blocks[j] == s2.func.blocks[j]);
            assert(s2.func.blocks[j].insts.len() == 0);
            assert(s2.func.blocks[j].params.len() == 0);
            assert(t.func.blocks[j].params =~= seq![ParamId(f6.block_params.len() as u32)]);
        }
    }
}

/// Lowering the statements of a block keeps the state as `keeps` says, where
/// the block ids that it may add fit in `u32`.
pub proof fn lemma_lower_block_keeps(
    st: LowerState,
    stmts: Seq<Stmt>,
    i: int,
    exp: Option<TypeKind>,
    last: ValueId,
)
    requires
        ctx_ok(st),
        lower_block_spec(st, stmts, i, exp, last) is Ok,
        st.func.blocks.len() + 3 * stmts_nodes(stmts, i) <= u32::MAX,
    ensures
        keeps(st, lower_block_spec(st, stmts, i, exp, last).unwrap().0, stmts_nodes(stmts, i)),
    decreases stmts, stmts.len() - i,
{
    let t = lower_block_spec(st, stmts, i, exp, last).unwrap().0;
    if i < 0 || i >= stmts.len() {
        lemma_keeps_refl(st);
    } else {
        let rest = stmts_nodes(stmts, i + 1);
        match stmts[i] {
            Stmt::ExprStmt(e) => {
                lemma_lower_expr_keeps(st, e, exp);
                let (s1, v) = lower_expr_spec(st, e, exp).unwrap();
                lemma_lower_block_keeps(s1, stmts, i + 1, exp, v);
                lemma_keeps_trans(st, s1, t, expr_nodes(e), rest);
            },
            Stmt::Let(name, e, m, ty_opt) => {
                let ty = ty_opt.unwrap();
                lemma_lower_expr_keeps(st, e, Some(ty));
                let (s1, v) = lower_expr_spec(st, e, Some(ty)).unwrap();
                let s1b = LowerState {
                    locals: s1.locals.insert(
                        name@,
                        crate::lower::LocalBinding { value: v, ty, mutable: m },
                    ),
                    ..s1
                };
                lemma_lower_block_keeps(s1b, stmts, i + 1, exp, v);
                lemma_keeps_trans(st, s1b, t, expr_nodes(e), rest);
            },
            Stmt::Reassign(name, e) => {
                let bty = st.locals[name@].ty;
                lemma_lower_expr_keeps(st, e, Some(bty));
                let (s1, v) = lower_expr_spec(st, e, Some(bty)).unwrap();
                let s1b = LowerState {
                    locals: s1.locals.insert(
                        name@,
                        crate::lower::LocalBinding { value: v, ty: bty, mutable: true },
                    ),
                    ..s1
                };
                lemma_lower_block_keeps(s1b, stmts, i + 1, exp, v);
                lemma_keeps_trans(st, s1b, t, expr_nodes(e), rest);
            },
            Stmt::Return(e) => {
                lemma_lower_expr_keeps(st, e, exp);
                let (s1, v) = lower_expr_spec(st, e, exp).unwrap();
                lemma_keeps_emit(s1, InstV::Effect(EffectV::Return { value: Some(v) }));
                lemma_keeps_trans(st, s1, t, expr_nodes(e), 0);
                lemma_keeps_more(st, t, expr_nodes(e), stmts_nodes(stmts, i));
            },
            Stmt::Print(e) => {
                lemma_lower_expr_keeps(st, e, None);
                let (s1, v) = lower_expr_spec(st, e, None).unwrap();
                let s2 = emit(s1, InstV::Effect(EffectV::Print { value: v }));
                lemma_keeps_emit(s1, InstV::Effect(EffectV::Print { value: v }));
                lemma_lower_block_keeps(s2, stmts, i + 1, exp, last);
                lemma_keeps_trans(st, s1, s2, expr_nodes(e), 0);
                lemma_keeps_trans(st, s2, t, expr_nodes(e), rest);
            },
        }
    }
}

/// Lowering an `if` gives the shape that `if_facts` describes, where the ids of
/// its blocks, instructions and block parameters fit in `u32`.
pub proof fn law_if_lowering_shape(st: LowerState, e: Expr, exp: Option<TypeKind>)
    requires
        ctx_ok(st),
        e is If,
        lower_expr_spec(st, e, exp) is Ok,
        st.func.blocks.len() + 3 * expr_nodes(e) <= u32::MAX,
        lower_expr_spec(st, e, exp).unwrap().0.func.insts.len() <= u32::MAX,
        lower_expr_spec(st, e, exp).unwrap().0.func.block_params.len() <= u32::MAX,
    ensures
        if_facts(st, e, exp),
{
    lemma_if_keeps(st, e, exp);
}

/// Statements `i` to `j - 1` hold no `return`.
pub open spec fn no_return_between(stmts: Seq<Stmt>, i: int, j: int) -> bool {
    forall|l: int| i <= l < j ==> !(#[trigger] stmts[l] is Return)
}

proof fn lemma_block_cut(
    st: LowerState,
    stmts: Seq<Stmt>,
    i: int,
    k: int,
    exp: Option<TypeKind>,
    last: ValueId,
)
    requires
        0 <= i <= k < stmts.len(),
        stmts[k] is Return,
        no_return_between(stmts, i, k),
    ensures
        lower_block_spec(st, stmts, i, exp, last) == lower_block_spec(
            st,
            stmts.take(k + 1),
            i,
            exp,
            last,
        ),
        lower_block_spec(st, stmts, i, exp, last) matches Ok((t, v)) ==> t.func.insts.len() > 0
            && t.func.insts.last() == InstV::Effect(EffectV::Return { value: Some(v) }),
    decreases k - i,
{
    let c = stmts.take(k + 1);
    assert(c[i] == stmts[i]);
    if i < k {
        assert(!(stmts[i] is Return));
        match stmts[i] {
            Stmt::ExprStmt(e) => {
                if let Ok((s1, v)) = lower_expr_spec(st, e, exp) {
                    lemma_block_cut(s1, stmts, i + 1, k, exp, v);
                }
            },
            Stmt::Let(name, e, m, ty_opt) => {
                if let Some(ty) = ty_opt {
                    if let Ok((s1, v)) = lower_expr_spec(st, e, Some(ty)) {
                        lemma_block_cut(
                            LowerState {
                                locals: s1.locals.insert(
                                    name@,
                                    crate::lower::LocalBinding { value: v, ty, mutable: m },
                                ),
                                ..s1
                            },
                            stmts,
                            i + 1,
                            k,
                            exp,
                            v,
                        );
                    }
                }
            },
            Stmt::Reassign(name, e) => {
                if st.locals.contains_key(name@) && st.locals[name@].mutable {
                    let bty = st.locals[name@].ty;
                    if let Ok((s1, v)) = lower_expr_spec(st, e, Some(bty)) {
                        lemma_block_cut(
                            LowerState {
                                locals: s1.locals.insert(
                                    name@,
                                    crate::lower::LocalBinding { value: v, ty: bty, mutable: true },
                                ),
                                ..s1
                            },
                            stmts,
                            i + 1,
                            k,
                            exp,
                            v,
                        );
                    }
                }
            },
            Stmt::Print(e) => {
                if let Ok((s1, v)) = lower_expr_spec(st, e, None) {
                    lemma_block_cut(
                        emit(s1, InstV::Effect(EffectV::Print { value: v })),
                        stmts,
                        i + 1,
                        k,
                        exp,
                        last,
                    );
                }
            },
            Stmt::Return(_) => {},
        }
    }
}

/// A block stops at its first `return`: the statements after it are not
/// lowered, and the last instruction added returns the value of the block.
pub proof fn law_block_stops_at_first_return(
    st: LowerState,
    stmts: Vec<Stmt>,
    k: int,
    exp: Option<TypeKind>,
)
    requires
        0 <= k < stmts@.len(),
        stmts@[k] is Return,
        no_return_between(stmts@, 0, k),
    ensures
        ({
            let (s1, v0) = emit_const_spec(st, Constant::I64(0));
            &&& lower_expr_spec(st, Expr::Block(stmts), exp) == lower_block_spec(
                s1,
                stmts@.take(k + 1),
                0,
                exp,
                v0,
            )
            &&& lower_expr_spec(st, Expr::Block(stmts), exp) matches Ok((t, v)) ==> t.func.insts.len() > 0
                && t.func.insts.last() == InstV::Effect(EffectV::Return { value: Some(v) })
        }),
{
    let (s1, v0) = emit_const_spec(st, Constant::I64(0));
    lemma_block_cut(s1, stmts@, 0, k, exp, v0);
}

proof fn lemma_prints_only(
    st: LowerState,
    stmts: Seq<Stmt>,
    i: int,
    exp: Option<TypeKind>,
    last: ValueId,
)
    requires
        0 <= i,
        forall|j: int| i <= j < stmts.len() ==> #[trigger] stmts[j] is Print,
    ensures
        lower_block_spec(st, stmts, i, exp, last) matches Ok((_, v)) ==> v == last,
    decreases stmts.len() - i,
{
    if i < stmts.len() {
        if let Stmt::Print(e) = stmts[i] {
            if let Ok((s1, v)) = lower_expr_spec(st, e, None) {
                lemma_prints_only(
                    emit(s1, InstV::Effect(EffectV::Print { value: v })),
                    stmts,
                    i + 1,
                    exp,
                    last,
                );
            }
        }
    }
}

/// Lowering a block first adds the constant `0` of type `i64` at the end of the
/// current block; where the block holds nothing but `print` statements, that
/// constant is its value.
pub proof fn law_block_unit_placeholder(st: LowerState, stmts: Vec<Stmt>, exp: Option<TypeKind>)
    requires
        ctx_ok(st),
        lower_expr_spec(st, Expr::Block(stmts), exp) is Ok,
        st.func.blocks.len() + 3 * expr_nodes(Expr::Block(stmts)) <= u32::MAX,
        st.func.insts.len() < u32::MAX,
    ensures
        ({
            let (t, v) = lower_expr_spec(st, Expr::Block(stmts), exp).unwrap();
            let n = st.func.insts.len();
            let c = st.cur.0 as int;
            &&& t.func.insts[n as int] == const_inst(Constant::I64(0))
            &&& t.func.blocks[c].insts[st.func.blocks[c].insts.len() as int] == InstId(n as u32)
            &&& (forall|j: int| 0 <= j < stmts@.len() ==> #[trigger] stmts@[j] is Print) ==> v
                == ValueId::Inst(InstId(n as u32))
        }),
{
    let (s1, v0) = emit_const_spec(st, Constant::I64(0));
    lemma_lower_expr_keeps(st, Expr::Block(stmts), exp);
    lemma_keeps_emit(st, const_inst(Constant::I64(0)));
    lemma_lower_block_keeps(s1, stmts@, 0, exp, v0);
    if forall|j: int| 0 <= j < stmts@.len() ==> #[trigger] stmts@[j] is Print {
        lemma_prints_only(s1, stmts@, 0, exp, v0);
    }
    let c = st.cur.0 as int;
    assert(s1.func.blocks[c].insts[st.func.blocks[c].insts.len() as int] == InstId(
        st.func.insts.len() as u32,
    ));
}

} // verus!
