use vstd::prelude::*;

use crate::analysis::{TypeError, check_spec, infer_block_spec, infer_spec, literal_fits, resolve_spec};
use crate::grammar::{Expr, Stmt, TypeBinding, TypeKind};
use crate::lower::{LowerError, duplicate_scan, finish_spec, lower_program_spec, number_constant};
use crate::ppv::constant_text;
use crate::text::lemma_int_decimal_parses;
use crate::verify::{VerifyError, verify_function_spec};
use crate::wellformed::{function_wf, law_verify_function_iff_well_formed};
use crate::vir::{
    Constant, FuncV, constant_ty, InstV, ValueId, ValueInst, add_inst, last_block, new_function, next_inst_id,
    last_inst_valid, terminator, value_ty_spec, with_final_return,
};

verus! {

/// A number literal with no type expected of it has type `i64`, where it fits
/// in one.
pub proof fn law_default_numeric_type(n: String, env: Map<Seq<char>, TypeBinding>)
    requires
        literal_fits(n@, TypeKind::I64),
    ensures
        infer_spec(Expr::NumberLiteral(n), env, None) == Ok::<TypeKind, TypeError>(TypeKind::I64),
{
}

/// A `let` binds its name to the type inferred for its value, whether or not a
/// type is declared.
pub proof fn law_let_binds_inferred_type(
    x: String,
    e: Expr,
    m: bool,
    declared: Option<TypeKind>,
    env: Map<Seq<char>, TypeBinding>,
)
    requires
        check_spec(Stmt::Let(x, e, m, declared), env) is Ok,
    ensures
        ({
            let (s2, env2) = check_spec(Stmt::Let(x, e, m, declared), env).unwrap();
            let t = infer_spec(e, env, declared).unwrap();
            &&& env2 == env.insert(x@, TypeBinding { ty: t, mutable: m })
            &&& s2 == Stmt::Let(x, e, m, Some(t))
        }),
{
    let t = infer_spec(e, env, declared).unwrap();
    if let Some(d) = declared {
        assert(resolve_spec(d, t) == Ok::<TypeKind, TypeError>(t));
    }
}

/// Expecting the unit type of an expression is the same as expecting nothing.
pub proof fn lemma_unit_expected_is_none(e: Expr, env: Map<Seq<char>, TypeBinding>)
    ensures
        infer_spec(e, env, Some(TypeKind::Unit)) == infer_spec(e, env, None),
    decreases e,
{
    match e {
        Expr::If { condition, then_branch, else_branch } => {
            lemma_unit_expected_is_none(*then_branch, env);
            if let Some(eb) = else_branch {
                lemma_unit_expected_is_none(*eb, env);
            }
        },
        Expr::Negate(inner) => lemma_unit_expected_is_none(*inner, env),
        Expr::Add(l, r) | Expr::Sub(l, r) | Expr::Mul(l, r) | Expr::Div(l, r) => {
            lemma_unit_expected_is_none(*l, env);
            lemma_unit_expected_is_none(*r, env);
        },
        _ => {},
    }
}

/// An expression whose type is inferred with nothing expected has the same
/// type when that type is expected of it.
pub proof fn law_inferred_type_is_stable(e: Expr, env: Map<Seq<char>, TypeBinding>)
    requires
        infer_spec(e, env, None) is Ok,
    ensures
        infer_spec(e, env, Some(infer_spec(e, env, None).unwrap())) == infer_spec(e, env, None),
    decreases e,
{
    let t = infer_spec(e, env, None).unwrap();
    match e {
        Expr::If { condition, then_branch, else_branch } => {
            law_inferred_type_is_stable(*then_branch, env);
            match else_branch {
                Some(eb) => law_inferred_type_is_stable(*eb, env),
                None => lemma_unit_expected_is_none(*then_branch, env),
            }
        },
        Expr::Negate(inner) => law_inferred_type_is_stable(*inner, env),
        Expr::Add(l, r) | Expr::Sub(l, r) | Expr::Mul(l, r) | Expr::Div(l, r) => {
            law_inferred_type_is_stable(*l, env);
            law_inferred_type_is_stable(*r, env);
        },
        _ => {},
    }
}

/// Declaring on a `let` the type that would be inferred for it changes nothing:
/// `let x = e` and `let x: T = e`, with `T` the inferred type, check alike.
pub proof fn law_declaring_the_inferred_type_changes_nothing(
    x: String,
    e: Expr,
    m: bool,
    env: Map<Seq<char>, TypeBinding>,
)
    requires
        check_spec(Stmt::Let(x, e, m, None), env) is Ok,
    ensures
        check_spec(Stmt::Let(x, e, m, Some(infer_spec(e, env, None).unwrap())), env) == check_spec(
            Stmt::Let(x, e, m, None),
            env,
        ),
{
    law_inferred_type_is_stable(e, env);
}

/// Type checking a statement other than a `let` leaves the statement and the
/// environment as they were, where it passes; an assignment passes exactly where
/// its name is bound mutably and its value has the name's type.
pub proof fn law_non_let_check_changes_nothing(stmt: Stmt, env: Map<Seq<char>, TypeBinding>)
    requires
        !(stmt is Let),
    ensures
        check_spec(stmt, env) is Ok ==> check_spec(stmt, env) == Ok::<
            (Stmt, Map<Seq<char>, TypeBinding>),
            TypeError,
        >((stmt, env)),
        stmt matches Stmt::Reassign(x, e) ==> (check_spec(stmt, env) is Ok <==> (env.contains_key(
            x@,
        ) && env[x@].mutable && infer_spec(e, env, Some(env[x@].ty)) == Ok::<TypeKind, TypeError>(
            env[x@].ty,
        ))),
{
    if let Stmt::Reassign(x, e) = stmt {
        if env.contains_key(x@) && env[x@].mutable {
            assert(env.insert(x@, TypeBinding { ty: env[x@].ty, mutable: true }) =~= env);
        }
    }
}

/// A name bound by `let` without `mut` cannot be assigned.
pub proof fn law_let_is_immutable(
    x: String,
    e: Expr,
    declared: Option<TypeKind>,
    e2: Expr,
    env: Map<Seq<char>, TypeBinding>,
)
    requires
        check_spec(Stmt::Let(x, e, false, declared), env) is Ok,
    ensures
        check_spec(Stmt::Reassign(x, e2), check_spec(Stmt::Let(x, e, false, declared), env).unwrap().1)
            == Err::<(Stmt, Map<Seq<char>, TypeBinding>), TypeError>(
            TypeError::ReassignImmutable(x),
        ),
{
    law_let_binds_inferred_type(x, e, false, declared, env);
}

/// A name bound by `let mut` can be assigned any value of its type, and keeps
/// its binding.
pub proof fn law_mut_can_be_reassigned(
    x: String,
    e: Expr,
    declared: Option<TypeKind>,
    e2: Expr,
    env: Map<Seq<char>, TypeBinding>,
)
    requires
        check_spec(Stmt::Let(x, e, true, declared), env) is Ok,
        ({
            let env2 = check_spec(Stmt::Let(x, e, true, declared), env).unwrap().1;
            infer_spec(e2, env2, Some(env2[x@].ty)) == Ok::<TypeKind, TypeError>(env2[x@].ty)
        }),
    ensures
        ({
            let env2 = check_spec(Stmt::Let(x, e, true, declared), env).unwrap().1;
            check_spec(Stmt::Reassign(x, e2), env2) == Ok::<
                (Stmt, Map<Seq<char>, TypeBinding>),
                TypeError,
            >((Stmt::Reassign(x, e2), env2))
        }),
{
    law_let_binds_inferred_type(x, e, true, declared, env);
    let env2 = check_spec(Stmt::Let(x, e, true, declared), env).unwrap().1;
    assert(env2.insert(x@, TypeBinding { ty: env2[x@].ty, mutable: true }) =~= env2);
}

/// An `if` without `else` has the unit type, where its condition is a `bool`
/// and its branch has a type.
pub proof fn law_if_without_else_is_unit(
    c: Expr,
    t: Expr,
    env: Map<Seq<char>, TypeBinding>,
    expected: Option<TypeKind>,
)
    requires
        infer_spec(c, env, Some(TypeKind::Bool)) == Ok::<TypeKind, TypeError>(TypeKind::Bool),
        infer_spec(t, env, expected) is Ok,
    ensures
        infer_spec(
            Expr::If { condition: Box::new(c), then_branch: Box::new(t), else_branch: None },
            env,
            expected,
        ) == Ok::<TypeKind, TypeError>(TypeKind::Unit),
{
}

/// Adding, subtracting, multiplying or dividing two operands of one type gives
/// that type.
pub proof fn law_arithmetic_keeps_operand_type(
    l: Expr,
    r: Expr,
    env: Map<Seq<char>, TypeBinding>,
    expected: Option<TypeKind>,
    t: TypeKind,
)
    requires
        infer_spec(l, env, expected) == Ok::<TypeKind, TypeError>(t),
        infer_spec(r, env, expected) == Ok::<TypeKind, TypeError>(t),
    ensures
        infer_spec(Expr::Add(Box::new(l), Box::new(r)), env, expected) == Ok::<TypeKind, TypeError>(t),
        infer_spec(Expr::Sub(Box::new(l), Box::new(r)), env, expected) == Ok::<TypeKind, TypeError>(t),
        infer_spec(Expr::Mul(Box::new(l), Box::new(r)), env, expected) == Ok::<TypeKind, TypeError>(t),
        infer_spec(Expr::Div(Box::new(l), Box::new(r)), env, expected) == Ok::<TypeKind, TypeError>(t),
{
}

/// An `if` with an `else` evaluates to a value of the type of its branches,
/// where its condition is a `bool` and both branches have that type.
pub proof fn law_if_else_has_branch_type(
    c: Expr,
    t: Expr,
    e: Expr,
    env: Map<Seq<char>, TypeBinding>,
    expected: Option<TypeKind>,
    ty: TypeKind,
)
    requires
        infer_spec(c, env, Some(TypeKind::Bool)) == Ok::<TypeKind, TypeError>(TypeKind::Bool),
        infer_spec(t, env, expected) == Ok::<TypeKind, TypeError>(ty),
        infer_spec(e, env, expected) == Ok::<TypeKind, TypeError>(ty),
    ensures
        infer_spec(
            Expr::If {
                condition: Box::new(c),
                then_branch: Box::new(t),
                else_branch: Some(Box::new(e)),
            },
            env,
            expected,
        ) == Ok::<TypeKind, TypeError>(ty),
{
}

/// The expression of a statement.
pub open spec fn stmt_expr(s: Stmt) -> Expr {
    match s {
        Stmt::ExprStmt(e) | Stmt::Print(e) | Stmt::Return(e) | Stmt::Let(_, e, _, _)
        | Stmt::Reassign(_, e) => e,
    }
}

/// The type a statement leaves as the value of a block: unit after a `print`,
/// else the type of its expression.
pub open spec fn stmt_value_type(s: Stmt, env: Map<Seq<char>, TypeBinding>) -> TypeKind {
    if s is Print {
        TypeKind::Unit
    } else {
        infer_spec(stmt_expr(s), env, None).unwrap()
    }
}

/// No statement of `stmts` in `i..j` is a `return`.
pub open spec fn no_return_in(stmts: Seq<Stmt>, i: int, j: int) -> bool {
    forall|l: int| i <= l < j ==> !(#[trigger] stmts[l] is Return)
}

proof fn lemma_block_from(
    stmts: Seq<Stmt>,
    i: int,
    env: Map<Seq<char>, TypeBinding>,
    acc: TypeKind,
)
    requires
        0 <= i <= stmts.len(),
        forall|j: int|
            i <= j < stmts.len() && no_return_in(stmts, i, j) ==> (infer_spec(
                stmt_expr(#[trigger] stmts[j]),
                env,
                None,
            ) is Ok),
    ensures
        no_return_in(stmts, i, stmts.len() as int) ==> infer_block_spec(stmts, i, env, acc) == Ok::<
            TypeKind,
            TypeError,
        >(if i == stmts.len() { acc } else { stmt_value_type(stmts.last(), env) }),
        forall|k: int|
            i <= k < stmts.len() && #[trigger] stmts[k] is Return && no_return_in(stmts, i, k)
                ==> infer_block_spec(stmts, i, env, acc) == infer_spec(stmt_expr(stmts[k]), env, None),
    decreases stmts.len() - i,
{
    if i < stmts.len() {
        assert(no_return_in(stmts, i, i));
        let s = stmts[i];
        if !(s is Return) {
            let next = stmt_value_type(s, env);
            assert forall|j: int|
                i + 1 <= j < stmts.len() && no_return_in(stmts, i + 1, j) implies (infer_spec(
                stmt_expr(#[trigger] stmts[j]),
                env,
                None,
            ) is Ok) by {
                assert(no_return_in(stmts, i, j));
            }
            lemma_block_from(stmts, i + 1, env, next);
            assert(infer_block_spec(stmts, i, env, acc) == infer_block_spec(stmts, i + 1, env, next));
            assert forall|k: int|
                i <= k < stmts.len() && #[trigger] stmts[k] is Return && no_return_in(stmts, i, k)
                    implies infer_block_spec(stmts, i, env, acc) == infer_spec(
                stmt_expr(stmts[k]),
                env,
                None,
            ) by {
                assert(k != i);
                assert(no_return_in(stmts, i + 1, k));
            }
            if no_return_in(stmts, i, stmts.len() as int) {
                assert(no_return_in(stmts, i + 1, stmts.len() as int));
                if i + 1 == stmts.len() {
                    assert(stmts.last() == s);
                }
            }
        }
    }
}

/// The type of a block: the type of the expression of its first `return`;
/// where it has none, unit for an empty block or one that ends in a `print`,
/// else the type of its last statement's expression. Each statement up to the
/// first `return` must type check on its own.
pub proof fn law_block_type(
    stmts: Vec<Stmt>,
    env: Map<Seq<char>, TypeBinding>,
    expected: Option<TypeKind>,
)
    requires
        forall|j: int|
            0 <= j < stmts@.len() && no_return_in(stmts@, 0, j) ==> (infer_spec(
                stmt_expr(#[trigger] stmts@[j]),
                env,
                None,
            ) is Ok),
    ensures
        no_return_in(stmts@, 0, stmts@.len() as int) ==> infer_spec(Expr::Block(stmts), env, expected)
            == Ok::<TypeKind, TypeError>(
            if stmts@.len() == 0 {
                TypeKind::Unit
            } else {
                stmt_value_type(stmts@.last(), env)
            },
        ),
        forall|k: int|
            0 <= k < stmts@.len() && #[trigger] stmts@[k] is Return && no_return_in(stmts@, 0, k)
                ==> infer_spec(Expr::Block(stmts), env, expected) == infer_spec(
                stmt_expr(stmts@[k]),
                env,
                None,
            ),
{
    lemma_block_from(stmts@, 0, env, TypeKind::Unit);
}

/// The value an instruction adds has the type of that instruction, while
/// instruction ids fit in `u32`.
pub proof fn law_added_value_has_its_type(f: FuncV, b: crate::vir::BlockId, vi: ValueInst)
    requires
        b.0 < f.blocks.len(),
        f.insts.len() < u32::MAX,
    ensures
        value_ty_spec(add_inst(f, b, InstV::Value(vi)), ValueId::Inst(next_inst_id(f))) == Some(
            vi.ty,
        ),
{
}

/// After `ensure_final_return` the last block ends in a terminator, and doing
/// it again changes nothing.
pub proof fn law_final_return(f: FuncV)
    requires
        f.blocks.len() as u32 >= 1,
        f.blocks.len() <= u32::MAX,
        f.insts.len() < u32::MAX,
        last_inst_valid(f),
    ensures
        ({
            let g = with_final_return(f);
            let last = g.blocks[last_block(g).0 as int];
            &&& last.insts.len() > 0
            &&& terminator(g.insts[last.insts.last().0 as int])
            &&& with_final_return(g) == g
        }),
{
    let g = with_final_return(f);
    assert(last_block(g) == last_block(f));
}

/// A new function, once it has its final return, is well-formed.
pub proof fn law_new_function_with_return_is_well_formed(name: Seq<char>)
    ensures
        verify_function_spec(with_final_return(new_function(name))) == Ok::<(), VerifyError>(()),
{
    let f = with_final_return(new_function(name));
    assert(f.blocks[0].insts[0] == crate::vir::InstId(0));
    reveal_with_fuel(crate::verify::structure_scan, 3);
    reveal_with_fuel(crate::verify::params_scan, 2);
    reveal_with_fuel(crate::verify::insts_scan, 2);
    reveal_with_fuel(crate::verify::first_unplaced, 2);
}

/// Lowering hands back only a function that passes the VIR check, since it
/// runs the check itself; by `law_verify_function_iff_well_formed` such a
/// function is well-formed: every block is non-empty and ends in its only
/// terminator, every instruction is placed once, and every instruction is typed
/// as `function_wf` says.
pub proof fn law_lowered_program_is_well_formed(items: Seq<crate::vir::Item>)
    requires
        lower_program_spec(items) is Ok,
    ensures
        function_wf(lower_program_spec(items).unwrap()),
{
    law_verify_function_iff_well_formed(lower_program_spec(items).unwrap());
}

proof fn lemma_duplicate_scan(items: Seq<crate::vir::Item>, k: int, seen: Set<Seq<char>>)
    requires
        0 <= k,
        duplicate_scan(items, k, seen) is None,
    ensures
        forall|j: int|
            k <= j < items.len() && #[trigger] items[j] is Function ==> !seen.contains(
                items[j]->Function_0.name@,
            ),
        forall|i: int, j: int|
            k <= i < j < items.len() && #[trigger] items[i] is Function && #[trigger] items[j] is Function
                ==> items[i]->Function_0.name@ != items[j]->Function_0.name@,
    decreases items.len() - k,
{
    if k < items.len() {
        match items[k] {
            crate::vir::Item::Function(f) => {
                lemma_duplicate_scan(items, k + 1, seen.insert(f.name@));
            },
            crate::vir::Item::Stmt(_) => {
                lemma_duplicate_scan(items, k + 1, seen);
            },
        }
    }
}

/// Two functions of one name make lowering fail with `DuplicateFunction`
/// before any statement is lowered, whatever the statements are.
pub proof fn law_duplicate_functions_are_refused(items: Seq<crate::vir::Item>, i: int, j: int)
    requires
        0 <= i < j < items.len(),
        items[i] is Function,
        items[j] is Function,
        items[i]->Function_0.name@ == items[j]->Function_0.name@,
    ensures
        duplicate_scan(items, 0, Set::empty()) is Some,
        lower_program_spec(items) matches Err(LowerError::DuplicateFunction(_)),
{
    if duplicate_scan(items, 0, Set::empty()) is None {
        lemma_duplicate_scan(items, 0, Set::empty());
        assert(false);
    }
}

/// An integer constant, printed as the VIR printer writes it, reads back as
/// the same constant when lowered as a literal of its own type.
pub proof fn law_printed_integer_reads_back(n: String, c: Constant)
    requires
        !(c is F32 || c is F64 || c is Bool || c is String),
        n@ == constant_text(c),
    ensures
        number_constant(n, constant_ty(c)) == Ok::<Constant, LowerError>(c),
{
    match c {
        Constant::I8(v) => lemma_int_decimal_parses(v as int, -0x80, 0x7f),
        Constant::I16(v) => lemma_int_decimal_parses(v as int, -0x8000, 0x7fff),
        Constant::I32(v) => lemma_int_decimal_parses(v as int, -0x8000_0000, 0x7fff_ffff),
        Constant::I64(v) => lemma_int_decimal_parses(
            v as int,
            -0x8000_0000_0000_0000,
            0x7fff_ffff_ffff_ffff,
        ),
        Constant::U8(v) => lemma_int_decimal_parses(v as int, 0, 0xff),
        Constant::U16(v) => lemma_int_decimal_parses(v as int, 0, 0xffff),
        Constant::U32(v) => lemma_int_decimal_parses(v as int, 0, 0xffff_ffff),
        Constant::U64(v) => lemma_int_decimal_parses(v as int, 0, 0xffff_ffff_ffff_ffff),
        _ => {},
    }
}

} // verus!
