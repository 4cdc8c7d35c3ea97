use vstd::prelude::*;

use crate::grammar::{Expr, NumericKind, Stmt, TypeBinding, TypeEnv, TypeKind, numeric_type};
use crate::text::{float_syntax, is_float_literal, parse_int, parse_int_spec};

verus! {

/// An arithmetic operator.
#[derive(Clone, Copy, Debug, PartialEq, Eq, Structural)]
pub enum ArithOp {
    Add,
    Sub,
    Mul,
    Div,
}

/// An expression to which type inference gives no type.
#[derive(Clone, Copy, Debug, PartialEq, Eq, Structural)]
pub enum Uninferable {
    Call,
    Number(NumericKind),
}

/// Why a statement or expression is ill-typed.
#[derive(Debug)]
pub enum TypeError {
    /// The condition of an `if` has this type, not `bool`.
    NonBoolCondition(TypeKind),
    /// The two branches of an `if` have these different types.
    BranchMismatch(TypeKind, TypeKind),
    /// A negation of a value of this unsigned type.
    NegateUnsigned(TypeKind),
    /// A negation of a value of this type, which is not numeric.
    NegateNonNumeric(TypeKind),
    /// The number literal does not fit in the type.
    LiteralDoesNotFit(String, TypeKind),
    /// A number literal where this type, which is not numeric, is expected.
    ExpectedNumeric(TypeKind),
    /// A variable that is not in scope.
    UndefinedVariable(String),
    /// The operands of this operator have these different types.
    OperandMismatch(ArithOp, TypeKind, TypeKind),
    /// An expression whose type is not inferred.
    CannotInfer(Uninferable),
    /// An expression statement that names an identifier not in scope.
    IdentifierNotFound(String),
    /// A `let` of a name already in scope.
    Redeclared(String),
    /// A `let` whose declared type differs from the inferred one.
    DeclaredMismatch(TypeKind, TypeKind),
    /// An assignment to a name not in scope.
    ReassignUndefined(String),
    /// An assignment to an immutable name.
    ReassignImmutable(String),
    /// An assignment to a name of this type of a value of another type.
    ReassignMismatch(String, TypeKind),
}

/// Whether the number literal `n` reads as a value of the numeric type `t`.
pub open spec fn literal_fits(n: Seq<char>, t: TypeKind) -> bool {
    match t {
        TypeKind::I8 => parse_int_spec(n, -0x80, 0x7f) is Some,
        TypeKind::I16 => parse_int_spec(n, -0x8000, 0x7fff) is Some,
        TypeKind::I32 => parse_int_spec(n, -0x8000_0000, 0x7fff_ffff) is Some,
        TypeKind::I64 => parse_int_spec(n, -0x8000_0000_0000_0000, 0x7fff_ffff_ffff_ffff) is Some,
        TypeKind::U8 => parse_int_spec(n, 0, 0xff) is Some,
        TypeKind::U16 => parse_int_spec(n, 0, 0xffff) is Some,
        TypeKind::U32 => parse_int_spec(n, 0, 0xffff_ffff) is Some,
        TypeKind::U64 => parse_int_spec(n, 0, 0xffff_ffff_ffff_ffff) is Some,
        TypeKind::F32 | TypeKind::F64 => float_syntax(n),
        _ => false,
    }
}

/// The type of a number literal: the expected type, or `i64` where none (or
/// unit) is expected; the literal must fit in it.
pub open spec fn infer_literal(n: String, expected: Option<TypeKind>) -> Result<TypeKind, TypeError> {
    let t = match expected {
        Some(TypeKind::Unit) => TypeKind::I64,
        Some(t) => t,
        None => TypeKind::I64,
    };
    if !numeric_type(t) {
        Err(TypeError::ExpectedNumeric(t))
    } else if literal_fits(n@, t) {
        Ok(t)
    } else {
        Err(TypeError::LiteralDoesNotFit(n, t))
    }
}

/// Whether values of type `t` may be negated: the signed and floating-point types.
pub open spec fn negatable(t: TypeKind) -> bool {
    match t {
        TypeKind::I8 | TypeKind::I16 | TypeKind::I32 | TypeKind::I64 | TypeKind::F32
        | TypeKind::F64 => true,
        _ => false,
    }
}

/// The type of `e` under `env`, given the type that the context expects.
pub open spec fn infer_spec(
    e: Expr,
    env: Map<Seq<char>, TypeBinding>,
    expected: Option<TypeKind>,
) -> Result<TypeKind, TypeError>
    decreases e, 0int,
{
    match e {
        Expr::If { condition, then_branch, else_branch } => {
            match infer_spec(*condition, env, Some(TypeKind::Bool)) {
                Err(x) => Err(x),
                Ok(ct) => if ct != TypeKind::Bool {
                    Err(TypeError::NonBoolCondition(ct))
                } else {
                    match infer_spec(*then_branch, env, expected) {
                        Err(x) => Err(x),
                        Ok(tt) => match else_branch {
                            Some(eb) => match infer_spec(*eb, env, expected) {
                                Err(x) => Err(x),
                                Ok(et) => if tt == et {
                                    Ok(tt)
                                } else {
                                    Err(TypeError::BranchMismatch(tt, et))
                                },
                            },
                            None => Ok(TypeKind::Unit),
                        },
                    }
                },
            }
        },
        Expr::Block(stmts) => infer_block_spec(stmts@, 0, env, TypeKind::Unit),
        Expr::Negate(inner) => match infer_spec(*inner, env, expected) {
            Err(x) => Err(x),
            Ok(t) => if negatable(t) {
                Ok(t)
            } else if numeric_type(t) {
                Err(TypeError::NegateUnsigned(t))
            } else {
                Err(TypeError::NegateNonNumeric(t))
            },
        },
        Expr::String(_) => Ok(TypeKind::String),
        Expr::Bool(_) => Ok(TypeKind::Bool),
        Expr::NumberLiteral(n) => infer_literal(n, expected),
        Expr::Var(name) => if env.contains_key(name@) {
            Ok(env[name@].ty)
        } else {
            Err(TypeError::UndefinedVariable(name))
        },
        Expr::Add(l, r) => arith_result(
            ArithOp::Add,
            infer_spec(*l, env, expected),
            infer_spec(*r, env, expected),
        ),
        Expr::Sub(l, r) => arith_result(
            ArithOp::Sub,
            infer_spec(*l, env, expected),
            infer_spec(*r, env, expected),
        ),
        Expr::Mul(l, r) => arith_result(
            ArithOp::Mul,
            infer_spec(*l, env, expected),
            infer_spec(*r, env, expected),
        ),
        Expr::Div(l, r) => arith_result(
            ArithOp::Div,
            infer_spec(*l, env, expected),
            infer_spec(*r, env, expected),
        ),
        Expr::Call(_, _) => Err(TypeError::CannotInfer(Uninferable::Call)),
        Expr::Number(k) => Err(TypeError::CannotInfer(Uninferable::Number(k))),
    }
}

/// The type of a binary arithmetic expression, from the results for its operands
/// (the left one is inferred first): both operands must have it.
pub open spec fn arith_result(
    op: ArithOp,
    l: Result<TypeKind, TypeError>,
    r: Result<TypeKind, TypeError>,
) -> Result<TypeKind, TypeError> {
    match l {
        Err(x) => Err(x),
        Ok(lt) => match r {
            Err(x) => Err(x),
            Ok(rt) => if lt == rt {
                Ok(lt)
            } else {
                Err(TypeError::OperandMismatch(op, lt, rt))
            },
        },
    }
}

/// The type of a block from its statement `i` on, where `acc` is the type of
/// the statements before: the type of the last statement, of the first
/// `return`, or unit after a `print`.
pub open spec fn infer_block_spec(
    stmts: Seq<Stmt>,
    i: int,
    env: Map<Seq<char>, TypeBinding>,
    acc: TypeKind,
) -> Result<TypeKind, TypeError>
    decreases stmts, stmts.len() - i,
{
    if i < 0 || i >= stmts.len() {
        Ok(acc)
    } else {
        match stmts[i] {
            Stmt::Return(e) => infer_spec(e, env, None),
            Stmt::Print(e) => match infer_spec(e, env, None) {
                Err(x) => Err(x),
                Ok(_) => infer_block_spec(stmts, i + 1, env, TypeKind::Unit),
            },
            Stmt::ExprStmt(e) => match infer_spec(e, env, None) {
                Err(x) => Err(x),
                Ok(t) => infer_block_spec(stmts, i + 1, env, t),
            },
            Stmt::Let(_, e, _, _) => match infer_spec(e, env, None) {
                Err(x) => Err(x),
                Ok(t) => infer_block_spec(stmts, i + 1, env, t),
            },
            Stmt::Reassign(_, e) => match infer_spec(e, env, None) {
                Err(x) => Err(x),
                Ok(t) => infer_block_spec(stmts, i + 1, env, t),
            },
        }
    }
}

/// The type that a `let` gets from its declared and its inferred type: a
/// declared unit type gives way to the inferred one; otherwise the two must agree.
pub open spec fn resolve_spec(declared: TypeKind, inferred: TypeKind) -> Result<TypeKind, TypeError> {
    if declared == TypeKind::Unit {
        Ok(inferred)
    } else if declared == inferred {
        Ok(declared)
    } else {
        Err(TypeError::DeclaredMismatch(declared, inferred))
    }
}

/// Type checking a statement under `env`: the statement as it leaves the
/// checker (a `let` gets its final type) and the environment after it.
pub open spec fn check_spec(stmt: Stmt, env: Map<Seq<char>, TypeBinding>) -> Result<
    (Stmt, Map<Seq<char>, TypeBinding>),
    TypeError,
> {
    match stmt {
        Stmt::ExprStmt(e) => match e {
            Expr::Var(ident) => if env.contains_key(ident@) {
                Ok((stmt, env))
            } else {
                Err(TypeError::IdentifierNotFound(ident))
            },
            _ => match infer_spec(e, env, None) {
                Ok(_) => Ok((stmt, env)),
                Err(x) => Err(x),
            },
        },
        Stmt::Let(ident, e, m, ty) => if env.contains_key(ident@) {
            Err(TypeError::Redeclared(ident))
        } else {
            match infer_spec(e, env, ty) {
                Err(x) => Err(x),
                Ok(inferred) => {
                    let fin = match ty {
                        Some(d) => resolve_spec(d, inferred),
                        None => Ok(inferred),
                    };
                    match fin {
                        Err(x) => Err(x),
                        Ok(f) => Ok(
                            (
                                Stmt::Let(ident, e, m, Some(f)),
                                env.insert(ident@, TypeBinding { ty: f, mutable: m }),
                            ),
                        ),
                    }
                },
            }
        },
        Stmt::Print(e) => match infer_spec(e, env, None) {
            Ok(_) => Ok((stmt, env)),
            Err(x) => Err(x),
        },
        Stmt::Return(e) => match infer_spec(e, env, None) {
            Ok(_) => Ok((stmt, env)),
            Err(x) => Err(x),
        },
        Stmt::Reassign(ident, e) => if !env.contains_key(ident@) {
            Err(TypeError::ReassignUndefined(ident))
        } else if !env[ident@].mutable {
            Err(TypeError::ReassignImmutable(ident))
        } else {
            let b = env[ident@];
            match infer_spec(e, env, Some(b.ty)) {
                Err(x) => Err(x),
                Ok(t) => if t != b.ty {
                    Err(TypeError::ReassignMismatch(ident, b.ty))
                } else {
                    Ok((stmt, env.insert(ident@, TypeBinding { ty: b.ty, mutable: true })))
                },
            }
        },
    }
}

/// Whether the number literal `n` reads as a value of the numeric type `t`.
fn literal_fits_exec(n: &String, t: TypeKind) -> (r: bool)
    ensures
        r == literal_fits(n@, t),
{
    let s = n.as_str();
    match t {
        TypeKind::I8 => parse_int(s, -0x80, 0x7f).is_some(),
        TypeKind::I16 => parse_int(s, -0x8000, 0x7fff).is_some(),
        TypeKind::I32 => parse_int(s, -0x8000_0000, 0x7fff_ffff).is_some(),
        TypeKind::I64 => parse_int(s, -0x8000_0000_0000_0000, 0x7fff_ffff_ffff_ffff).is_some(),
        TypeKind::U8 => parse_int(s, 0, 0xff).is_some(),
        TypeKind::U16 => parse_int(s, 0, 0xffff).is_some(),
        TypeKind::U32 => parse_int(s, 0, 0xffff_ffff).is_some(),
        TypeKind::U64 => parse_int(s, 0, 0xffff_ffff_ffff_ffff).is_some(),
        TypeKind::F32 | TypeKind::F64 => is_float_literal(s),
        _ => false,
    }
}

fn is_negatable(t: TypeKind) -> (r: bool)
    ensures
        r == negatable(t),
{
    match t {
        TypeKind::I8 | TypeKind::I16 | TypeKind::I32 | TypeKind::I64 | TypeKind::F32
        | TypeKind::F64 => true,
        _ => false,
    }
}

fn is_numeric(t: TypeKind) -> (r: bool)
    ensures
        r == numeric_type(t),
{
    match t {
        TypeKind::String | TypeKind::Bool | TypeKind::Unit => false,
        _ => true,
    }
}

fn combine_arith(op: ArithOp, lt: TypeKind, rt: TypeKind) -> (res: Result<TypeKind, TypeError>)
    ensures
        res == arith_result(op, Ok(lt), Ok(rt)),
{
    if lt == rt {
        Ok(lt)
    } else {
        Err(TypeError::OperandMismatch(op, lt, rt))
    }
}

/// The type of `expr` under `env`, given the type that the context expects.
pub fn infer_type(expr: &Expr, env: &TypeEnv, expected: Option<TypeKind>) -> (r: Result<
    TypeKind,
    TypeError,
>)
    ensures
        r == infer_spec(*expr, env.idents@, expected),
    decreases expr, 0int,
{
    match expr {
        Expr::If { condition, then_branch, else_branch } => {
            let ct = infer_type(condition, env, Some(TypeKind::Bool))?;
            if ct != TypeKind::Bool {
                return Err(TypeError::NonBoolCondition(ct));
            }
            let tt = infer_type(then_branch, env, expected)?;
            match else_branch {
                Some(eb) => {
                    let et = infer_type(eb, env, expected)?;
                    if tt == et {
                        Ok(tt)
                    } else {
                        Err(TypeError::BranchMismatch(tt, et))
                    }
                },
                None => Ok(TypeKind::Unit),
            }
        },
        Expr::Block(stmts) => {
            let mut ty = TypeKind::Unit;
            let mut i: usize = 0;
            while i < stmts.len()
                invariant
                    *expr == Expr::Block(*stmts),
                    i <= stmts.len(),
                    infer_block_spec(stmts@, i as int, env.idents@, ty) == infer_block_spec(
                        stmts@,
                        0,
                        env.idents@,
                        TypeKind::Unit,
                    ),
                decreases stmts.len() - i,
            {
                proof {
                    assert(decreases_to!(*expr => stmts@[i as int]));
                }
                ty = match &stmts[i] {
                    Stmt::ExprStmt(e) => infer_type(e, env, None)?,
                    Stmt::Let(_, e, _, _) => infer_type(e, env, None)?,
                    Stmt::Reassign(_, e) => infer_type(e, env, None)?,
                    Stmt::Return(e) => {
                        return infer_type(e, env, None);
                    },
                    Stmt::Print(e) => {
                        infer_type(e, env, None)?;
                        TypeKind::Unit
                    },
                };
                i = i + 1;
            }
            Ok(ty)
        },
        Expr::Negate(inner) => {
            let t = infer_type(inner, env, expected)?;
            if is_negatable(t) {
                Ok(t)
            } else if is_numeric(t) {
                Err(TypeError::NegateUnsigned(t))
            } else {
                Err(TypeError::NegateNonNumeric(t))
            }
        },
        Expr::String(_) => Ok(TypeKind::String),
        Expr::Bool(_) => Ok(TypeKind::Bool),
        Expr::NumberLiteral(n) => {
            let t = match expected {
                Some(TypeKind::Unit) => TypeKind::I64,
                Some(t) => t,
                None => TypeKind::I64,
            };
            if !is_numeric(t) {
                Err(TypeError::ExpectedNumeric(t))
            } else if literal_fits_exec(n, t) {
                Ok(t)
            } else {
                Err(TypeError::LiteralDoesNotFit(n.clone(), t))
            }
        },
        Expr::Var(name) => match env.idents.get(name) {
            Some(b) => Ok(b.ty),
            None => Err(TypeError::UndefinedVariable(name.clone())),
        },
        Expr::Add(l, r) => {
            let lt = infer_type(l, env, expected)?;
            let rt = infer_type(r, env, expected)?;
            combine_arith(ArithOp::Add, lt, rt)
        },
        Expr::Sub(l, r) => {
            let lt = infer_type(l, env, expected)?;
            let rt = infer_type(r, env, expected)?;
            combine_arith(ArithOp::Sub, lt, rt)
        },
        Expr::Mul(l, r) => {
            let lt = infer_type(l, env, expected)?;
            let rt = infer_type(r, env, expected)?;
            combine_arith(ArithOp::Mul, lt, rt)
        },
        Expr::Div(l, r) => {
            let lt = infer_type(l, env, expected)?;
            let rt = infer_type(r, env, expected)?;
            combine_arith(ArithOp::Div, lt, rt)
        },
        Expr::Call(_, _) => Err(TypeError::CannotInfer(Uninferable::Call)),
        Expr::Number(k) => Err(TypeError::CannotInfer(Uninferable::Number(*k))),
    }
}

/// Resolves a declared type against an inferred one; see `resolve_spec`.
fn resolve_checked(declared: TypeKind, inferred: TypeKind) -> (r: Result<TypeKind, TypeError>)
    ensures
        r == resolve_spec(declared, inferred),
{
    if declared == TypeKind::Unit {
        Ok(inferred)
    } else if declared == inferred {
        Ok(declared)
    } else {
        Err(TypeError::DeclaredMismatch(declared, inferred))
    }
}

/// The type that a `let` gets from its declared and its inferred type, where
/// the two are compatible.
pub fn resolve_declared_type(declared: &TypeKind, inferred: &TypeKind) -> (r: TypeKind)
    requires
        resolve_spec(*declared, *inferred) is Ok,
    ensures
        resolve_spec(*declared, *inferred) == Ok::<TypeKind, TypeError>(r),
{
    match resolve_checked(*declared, *inferred) {
        Ok(t) => t,
        Err(_) => {
            proof {
                assert(false);
            }
            *declared
        },
    }
}

/// Type checks `stmt` under `env`: on success a `let` gets its final type and
/// its name is bound; on failure neither is changed.
pub fn try_check_stmt_types(stmt: &mut Stmt, env: &mut TypeEnv) -> (r: Result<(), TypeError>)
    ensures
        match check_spec(*old(stmt), old(env).idents@) {
            Ok((s2, m)) => r is Ok && *final(stmt) == s2 && final(env).idents@ == m,
            Err(x) => r == Err::<(), TypeError>(x) && *final(stmt) == *old(stmt)
                && final(env).idents@ == old(env).idents@,
        },
{
    match stmt {
        Stmt::ExprStmt(expr) => {
            if let Expr::Var(ident) = expr {
                if env.idents.get(ident).is_some() {
                    Ok(())
                } else {
                    Err(TypeError::IdentifierNotFound(ident.clone()))
                }
            } else {
                infer_type(expr, env, None)?;
                Ok(())
            }
        },
        Stmt::Let(ident, expr, mutable, ty) => {
            if env.idents.get(ident).is_some() {
                return Err(TypeError::Redeclared(ident.clone()));
            }
            let inferred = infer_type(expr, env, *ty)?;
            let final_type = match *ty {
                Some(declared) => resolve_checked(declared, inferred)?,
                None => inferred,
            };
            *ty = Some(final_type);
            env.idents.insert(ident.clone(), TypeBinding { ty: final_type, mutable: *mutable });
            Ok(())
        },
        Stmt::Print(expr) => {
            infer_type(expr, env, None)?;
            Ok(())
        },
        Stmt::Reassign(ident, expr) => {
            let binding = match env.idents.get(ident) {
                Some(b) => b,
                None => {
                    return Err(TypeError::ReassignUndefined(ident.clone()));
                },
            };
            if !binding.mutable {
                return Err(TypeError::ReassignImmutable(ident.clone()));
            }
            let expected_type = binding.ty;
            let inferred_type = infer_type(expr, env, Some(expected_type))?;
            if inferred_type != expected_type {
                return Err(TypeError::ReassignMismatch(ident.clone(), expected_type));
            }
            env.idents.insert(ident.clone(), TypeBinding { ty: expected_type, mutable: true });
            Ok(())
        },
        Stmt::Return(expr) => {
            infer_type(expr, env, None)?;
            Ok(())
        },
    }
}

/// Type checks `stmt` under `env`, which it must pass: a `let` gets its final
/// type and its name is bound.
pub fn check_stmt_types(stmt: &mut Stmt, env: &mut TypeEnv)
    requires
        check_spec(*old(stmt), old(env).idents@) is Ok,
    ensures
        check_spec(*old(stmt), old(env).idents@) == Ok::<
            (Stmt, Map<Seq<char>, TypeBinding>),
            TypeError,
        >((*final(stmt), final(env).idents@)),
{
    let _ = try_check_stmt_types(stmt, env);
}

} // verus!
