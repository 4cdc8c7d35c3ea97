use vstd::prelude::*;

use crate::analysis::ArithOp;
use crate::grammar::{Expr, Stmt, TypeKind};
use crate::names::NameMap;
use crate::verify::{VerifyError, check_function, verify_function_spec};
use crate::text::{float_syntax, is_float_literal, parse_int, parse_int_spec};
use crate::vir::{
    BlockId, BlockV, Constant, Item, Program, Vir, last_block, new_function, with_final_return, EffectInst, EffectV, FuncV, Inst, InstV, ParamId, ValueId, ValueInst,
    ValueInstKind, VirFunction, add_block, add_inst, add_param, constant_ty, next_inst_id,
    placed_valid, value_ty_spec, last_inst_valid, lemma_u32_trunc,
};

verus! {

/// What lowering knows of a local name: the value it stands for now, its type,
/// and whether it may be assigned.
#[derive(Clone, Copy, Debug, PartialEq, Eq, Structural)]
pub struct LocalBinding {
    pub value: ValueId,
    pub ty: TypeKind,
    pub mutable: bool,
}

/// The state of lowering statements into one function.
pub struct LowerCtx {
    pub func: VirFunction,
    pub current_block: BlockId,
    pub locals: NameMap<LocalBinding>,
}

/// An expression form that lowering does not handle.
#[derive(Clone, Copy, Debug, PartialEq, Eq, Structural)]
pub enum Unlowered {
    Call,
    Number,
}

/// Why a program cannot be lowered.
#[derive(Debug)]
pub enum LowerError {
    /// A top-level `let` that type checking gave no type.
    MissingLetType(String),
    /// A `let` inside a block without a type.
    BlockLetMissingType(String),
    /// A `let` whose value has another type than the declared one (expected, actual).
    LetTypeMismatch(String, TypeKind, TypeKind),
    /// A variable that is not in scope.
    UnknownVariable(String),
    /// An assignment to an immutable variable; `true` where it is inside a block.
    ReassignImmutable(String, bool),
    /// An assignment of a value of another type (actual, the variable's type).
    AssignTypeMismatch(String, TypeKind, TypeKind),
    /// A number literal where this type, which is not numeric, is expected.
    NonNumericLiteral(TypeKind),
    /// A number literal that does not read as a value of this type.
    InvalidLiteral(String, TypeKind),
    /// A string literal where this other type is expected.
    StringTypeMismatch(TypeKind),
    /// A bool literal where this other type is expected.
    BoolTypeMismatch(TypeKind),
    /// Operands of types (lhs, rhs) where this type is expected.
    OperandMismatch(ArithOp, TypeKind, TypeKind, TypeKind),
    /// A value that names no value-producing instruction or parameter.
    NotAValue(ValueId),
    /// An expression form that lowering does not handle.
    Unsupported(Unlowered),
    /// Two functions with this name.
    DuplicateFunction(String),
    /// So many blocks that the last one has no `u32` id.
    TooManyBlocks,
    /// The lowered function `usize` is not well-formed.
    Invalid(usize, VerifyError),
}

/// The state of lowering: the function so far, the block that code goes to, and
/// the local names.
pub struct LowerState {
    pub func: FuncV,
    pub cur: BlockId,
    pub locals: Map<Seq<char>, LocalBinding>,
}

impl View for LowerCtx {
    type V = LowerState;

    open spec fn view(&self) -> LowerState {
        LowerState { func: self.func@, cur: self.current_block, locals: self.locals@ }
    }
}

/// The constant that a number literal stands for at type `ty`.
pub open spec fn number_constant(n: String, ty: TypeKind) -> Result<Constant, LowerError> {
    match ty {
        TypeKind::I8 => match parse_int_spec(n@, -0x80, 0x7f) {
            Some(v) => Ok(Constant::I8(v as i8)),
            None => Err(LowerError::InvalidLiteral(n, ty)),
        },
        TypeKind::I16 => match parse_int_spec(n@, -0x8000, 0x7fff) {
            Some(v) => Ok(Constant::I16(v as i16)),
            None => Err(LowerError::InvalidLiteral(n, ty)),
        },
        TypeKind::I32 => match parse_int_spec(n@, -0x8000_0000, 0x7fff_ffff) {
            Some(v) => Ok(Constant::I32(v as i32)),
            None => Err(LowerError::InvalidLiteral(n, ty)),
        },
        TypeKind::I64 => match parse_int_spec(
            n@,
            -0x8000_0000_0000_0000,
            0x7fff_ffff_ffff_ffff,
        ) {
            Some(v) => Ok(Constant::I64(v as i64)),
            None => Err(LowerError::InvalidLiteral(n, ty)),
        },
        TypeKind::U8 => match parse_int_spec(n@, 0, 0xff) {
            Some(v) => Ok(Constant::U8(v as u8)),
            None => Err(LowerError::InvalidLiteral(n, ty)),
        },
        TypeKind::U16 => match parse_int_spec(n@, 0, 0xffff) {
            Some(v) => Ok(Constant::U16(v as u16)),
            None => Err(LowerError::InvalidLiteral(n, ty)),
        },
        TypeKind::U32 => match parse_int_spec(n@, 0, 0xffff_ffff) {
            Some(v) => Ok(Constant::U32(v as u32)),
            None => Err(LowerError::InvalidLiteral(n, ty)),
        },
        TypeKind::U64 => match parse_int_spec(n@, 0, 0xffff_ffff_ffff_ffff) {
            Some(v) => Ok(Constant::U64(v as u64)),
            None => Err(LowerError::InvalidLiteral(n, ty)),
        },
        TypeKind::F32 => if float_syntax(n@) {
            Ok(Constant::F32(n))
        } else {
            Err(LowerError::InvalidLiteral(n, ty))
        },
        TypeKind::F64 => if float_syntax(n@) {
            Ok(Constant::F64(n))
        } else {
            Err(LowerError::InvalidLiteral(n, ty))
        },
        _ => Err(LowerError::NonNumericLiteral(ty)),
    }
}

/// The state after `inst` is added to the current block.
pub open spec fn emit(st: LowerState, inst: InstV) -> LowerState {
    LowerState { func: add_inst(st.func, st.cur, inst), ..st }
}

/// The value that the next instruction added in `st` produces.
pub open spec fn next_value(st: LowerState) -> ValueId {
    ValueId::Inst(next_inst_id(st.func))
}

/// A constant instruction.
pub open spec fn const_inst(c: Constant) -> InstV {
    InstV::Value(ValueInst { kind: ValueInstKind::Const { value: c }, ty: constant_ty(c) })
}

/// Adds a constant to the current block: the state and its value.
pub open spec fn emit_const_spec(st: LowerState, c: Constant) -> (LowerState, ValueId) {
    (emit(st, const_inst(c)), next_value(st))
}

/// The type of an arithmetic expression: the expected type, or else the type
/// of its left operand.
pub open spec fn arith_ty(s1: LowerState, lv: ValueId, expected: Option<TypeKind>) -> Option<TypeKind> {
    match expected {
        Some(t) => Some(t),
        None => value_ty_spec(s1.func, lv),
    }
}

/// The instruction of an arithmetic operator on two values.
pub open spec fn arith_kind(op: ArithOp, lv: ValueId, rv: ValueId) -> ValueInstKind {
    match op {
        ArithOp::Add => ValueInstKind::Add { lhs: lv, rhs: rv },
        ArithOp::Sub => ValueInstKind::Sub { lhs: lv, rhs: rv },
        ArithOp::Mul => ValueInstKind::Mul { lhs: lv, rhs: rv },
        ArithOp::Div => ValueInstKind::Div { lhs: lv, rhs: rv },
    }
}

/// The end of lowering an arithmetic expression at type `ty`: both operands
/// must have that type; then the instruction is added.
pub open spec fn arith_finish(
    op: ArithOp,
    s2: LowerState,
    lv: ValueId,
    rv: ValueId,
    ty: TypeKind,
) -> Result<(LowerState, ValueId), LowerError> {
    match (value_ty_spec(s2.func, lv), value_ty_spec(s2.func, rv)) {
        (Some(lt), Some(rt)) => if lt != ty || rt != ty {
            Err(LowerError::OperandMismatch(op, lt, rt, ty))
        } else {
            Ok((emit(s2, InstV::Value(ValueInst { kind: arith_kind(op, lv, rv), ty })), next_value(s2)))
        },
        (None, _) => Err(LowerError::NotAValue(lv)),
        (_, None) => Err(LowerError::NotAValue(rv)),
    }
}

/// Whether a literal of type `lit` may stand where `expected` is expected.
pub open spec fn literal_allowed(lit: TypeKind, expected: Option<TypeKind>) -> bool {
    match expected {
        Some(t) => t == lit,
        None => true,
    }
}

/// The three blocks of an `if`, after the condition: then, else, join.
pub open spec fn if_blocks(f: FuncV) -> (BlockId, BlockId, BlockId) {
    (
        BlockId(f.blocks.len() as u32),
        BlockId((f.blocks.len() + 1) as u32),
        BlockId((f.blocks.len() + 2) as u32),
    )
}

/// A jump to `target` passing `v`.
pub open spec fn jump_inst(target: BlockId, v: ValueId) -> InstV {
    InstV::Effect(EffectV::Jump { target, args: seq![v] })
}

/// Lowering `e` in state `st`, given the type the context expects: the state
/// after, and the value that stands for `e`.
pub open spec fn lower_expr_spec(st: LowerState, e: Expr, expected: Option<TypeKind>) -> Result<
    (LowerState, ValueId),
    LowerError,
>
    decreases e, 1int,
{
    match e {
        Expr::NumberLiteral(n) => {
            let ty = match expected {
                Some(t) => t,
                None => TypeKind::I64,
            };
            match number_constant(n, ty) {
                Err(x) => Err(x),
                Ok(c) => Ok(emit_const_spec(st, c)),
            }
        },
        Expr::String(s) => if literal_allowed(TypeKind::String, expected) {
            Ok(emit_const_spec(st, Constant::String(s)))
        } else {
            Err(LowerError::StringTypeMismatch(expected.unwrap()))
        },
        Expr::Bool(b) => if literal_allowed(TypeKind::Bool, expected) {
            Ok(emit_const_spec(st, Constant::Bool(b)))
        } else {
            Err(LowerError::BoolTypeMismatch(expected.unwrap()))
        },
        Expr::Var(name) => if st.locals.contains_key(name@) {
            Ok((st, st.locals[name@].value))
        } else {
            Err(LowerError::UnknownVariable(name))
        },
        Expr::Add(l, r) => match lower_expr_spec(st, *l, expected) {
            Err(x) => Err(x),
            Ok((s1, lv)) => match arith_ty(s1, lv, expected) {
                None => Err(LowerError::NotAValue(lv)),
                Some(ty) => match lower_expr_spec(s1, *r, Some(ty)) {
                    Err(x) => Err(x),
                    Ok((s2, rv)) => arith_finish(ArithOp::Add, s2, lv, rv, ty),
                },
            },
        },
        Expr::Sub(l, r) => match lower_expr_spec(st, *l, expected) {
            Err(x) => Err(x),
            Ok((s1, lv)) => match arith_ty(s1, lv, expected) {
                None => Err(LowerError::NotAValue(lv)),
                Some(ty) => match lower_expr_spec(s1, *r, Some(ty)) {
                    Err(x) => Err(x),
                    Ok((s2, rv)) => arith_finish(ArithOp::Sub, s2, lv, rv, ty),
                },
            },
        },
        Expr::Mul(l, r) => match lower_expr_spec(st, *l, expected) {
            Err(x) => Err(x),
            Ok((s1, lv)) => match arith_ty(s1, lv, expected) {
                None => Err(LowerError::NotAValue(lv)),
                Some(ty) => match lower_expr_spec(s1, *r, Some(ty)) {
                    Err(x) => Err(x),
                    Ok((s2, rv)) => arith_finish(ArithOp::Mul, s2, lv, rv, ty),
                },
            },
        },
        Expr::Div(l, r) => match lower_expr_spec(st, *l, expected) {
            Err(x) => Err(x),
            Ok((s1, lv)) => match arith_ty(s1, lv, expected) {
                None => Err(LowerError::NotAValue(lv)),
                Some(ty) => match lower_expr_spec(s1, *r, Some(ty)) {
                    Err(x) => Err(x),
                    Ok((s2, rv)) => arith_finish(ArithOp::Div, s2, lv, rv, ty),
                },
            },
        },
        Expr::Negate(inner) => match lower_expr_spec(st, *inner, expected) {
            Err(x) => Err(x),
            Ok((s1, v)) => match value_ty_spec(s1.func, v) {
                None => Err(LowerError::NotAValue(v)),
                Some(ty) => Ok(
                    (
                        emit(
                            s1,
                            InstV::Value(ValueInst { kind: ValueInstKind::Neg { value: v }, ty }),
                        ),
                        next_value(s1),
                    ),
                ),
            },
        },
        Expr::If { condition, then_branch, else_branch } => match lower_expr_spec(
            st,
            *condition,
            Some(TypeKind::Bool),
        ) {
            Err(x) => Err(x),
            Ok((s1, cv)) => {
                let (tb, eb, jb) = if_blocks(s1.func);
                let f1 = add_block(add_block(add_block(s1.func)));
                let branch = InstV::Effect(
                    EffectV::Branch {
                        cond: cv,
                        then_block: tb,
                        then_args: seq![],
                        else_block: eb,
                        else_args: seq![],
                    },
                );
                let s2 = LowerState { func: add_inst(f1, s1.cur, branch), cur: tb, locals: s1.locals };
                match lower_expr_spec(s2, *then_branch, None) {
                    Err(x) => Err(x),
                    Ok((s3, tv)) => match value_ty_spec(s3.func, tv) {
                        None => Err(LowerError::NotAValue(tv)),
                        Some(rt) => {
                            let s4 = LowerState { cur: eb, ..emit(s3, jump_inst(jb, tv)) };
                            let else_r = match else_branch {
                                Some(x) => lower_expr_spec(s4, *x, Some(rt)),
                                None => Ok(emit_const_spec(s4, Constant::I32(0))),
                            };
                            match else_r {
                                Err(x) => Err(x),
                                Ok((s5, ev)) => {
                                    let f6 = emit(s5, jump_inst(jb, ev)).func;
                                    Ok(
                                        (
                                            LowerState {
                                                func: add_param(f6, jb, rt),
                                                cur: jb,
                                                locals: s5.locals,
                                            },
                                            ValueId::Param(ParamId(f6.block_params.len() as u32)),
                                        ),
                                    )
                                },
                            }
                        },
                    },
                }
            },
        },
        Expr::Block(stmts) => {
            let (s1, v0) = emit_const_spec(st, Constant::I64(0));
            lower_block_spec(s1, stmts@, 0, expected, v0)
        },
        Expr::Call(_, _) => Err(LowerError::Unsupported(Unlowered::Call)),
        Expr::Number(_) => Err(LowerError::Unsupported(Unlowered::Number)),
    }
}

/// Lowering the statements of a block from `i` on, where `last` stands for the
/// value so far: the state after, and the value of the block, which is that of
/// its last expression, `let` or assignment, or of its first `return`.
pub open spec fn lower_block_spec(
    st: LowerState,
    stmts: Seq<Stmt>,
    i: int,
    expected: Option<TypeKind>,
    last: ValueId,
) -> Result<(LowerState, ValueId), LowerError>
    decreases stmts, stmts.len() - i,
{
    if i < 0 || i >= stmts.len() {
        Ok((st, last))
    } else {
        match stmts[i] {
            Stmt::ExprStmt(e) => match lower_expr_spec(st, e, expected) {
                Err(x) => Err(x),
                Ok((s1, v)) => lower_block_spec(s1, stmts, i + 1, expected, v),
            },
            Stmt::Let(name, e, m, ty_opt) => match ty_opt {
                None => Err(LowerError::BlockLetMissingType(name)),
                Some(ty) => match lower_expr_spec(st, e, Some(ty)) {
                    Err(x) => Err(x),
                    Ok((s1, v)) => lower_block_spec(
                        LowerState {
                            locals: s1.locals.insert(
                                name@,
                                LocalBinding { value: v, ty, mutable: m },
                            ),
                            ..s1
                        },
                        stmts,
                        i + 1,
                        expected,
                        v,
                    ),
                },
            },
            Stmt::Reassign(name, e) => if !st.locals.contains_key(name@) {
                Err(LowerError::UnknownVariable(name))
            } else if !st.locals[name@].mutable {
                Err(LowerError::ReassignImmutable(name, true))
            } else {
                let bty = st.locals[name@].ty;
                match lower_expr_spec(st, e, Some(bty)) {
                    Err(x) => Err(x),
                    Ok((s1, v)) => match value_ty_spec(s1.func, v) {
                        None => Err(LowerError::NotAValue(v)),
                        Some(actual) => if actual != bty {
                            Err(LowerError::AssignTypeMismatch(name, actual, bty))
                        } else {
                            lower_block_spec(
                                LowerState {
                                    locals: s1.locals.insert(
                                        name@,
                                        LocalBinding { value: v, ty: bty, mutable: true },
                                    ),
                                    ..s1
                                },
                                stmts,
                                i + 1,
                                expected,
                                v,
                            )
                        },
                    },
                }
            },
            Stmt::Return(e) => match lower_expr_spec(st, e, expected) {
                Err(x) => Err(x),
                Ok((s1, v)) => Ok(
                    (emit(s1, InstV::Effect(EffectV::Return { value: Some(v) })), v),
                ),
            },
            Stmt::Print(e) => match lower_expr_spec(st, e, None) {
                Err(x) => Err(x),
                Ok((s1, v)) => lower_block_spec(
                    emit(s1, InstV::Effect(EffectV::Print { value: v })),
                    stmts,
                    i + 1,
                    expected,
                    last,
                ),
            },
        }
    }
}

/// Lowering a top-level statement in state `st`: the state after.
#[verifier::opaque]
pub open spec fn lower_stmt_spec(st: LowerState, stmt: Stmt) -> Result<LowerState, LowerError> {
    match stmt {
        Stmt::Print(e) => match lower_expr_spec(st, e, None) {
            Err(x) => Err(x),
            Ok((s1, v)) => Ok(emit(s1, InstV::Effect(EffectV::Print { value: v }))),
        },
        Stmt::Let(name, e, m, declared) => match declared {
            None => Err(LowerError::MissingLetType(name)),
            Some(ty) => match lower_expr_spec(st, e, Some(ty)) {
                Err(x) => Err(x),
                Ok((s1, v)) => match value_ty_spec(s1.func, v) {
                    None => Err(LowerError::NotAValue(v)),
                    Some(actual) => if actual != ty {
                        Err(LowerError::LetTypeMismatch(name, ty, actual))
                    } else {
                        Ok(
                            LowerState {
                                locals: s1.locals.insert(
                                    name@,
                                    LocalBinding { value: v, ty: actual, mutable: m },
                                ),
                                ..s1
                            },
                        )
                    },
                },
            },
        },
        Stmt::ExprStmt(e) => match lower_expr_spec(st, e, None) {
            Err(x) => Err(x),
            Ok((s1, _)) => Ok(s1),
        },
        Stmt::Reassign(name, e) => if !st.locals.contains_key(name@) {
            Err(LowerError::UnknownVariable(name))
        } else if !st.locals[name@].mutable {
            Err(LowerError::ReassignImmutable(name, false))
        } else {
            let bty = st.locals[name@].ty;
            match lower_expr_spec(st, e, Some(bty)) {
                Err(x) => Err(x),
                Ok((s1, v)) => match value_ty_spec(s1.func, v) {
                    None => Err(LowerError::NotAValue(v)),
                    Some(actual) => if actual != bty {
                        Err(LowerError::AssignTypeMismatch(name, actual, bty))
                    } else {
                        Ok(
                            LowerState {
                                locals: s1.locals.insert(
                                    name@,
                                    LocalBinding { value: v, ty: bty, mutable: true },
                                ),
                                ..s1
                            },
                        )
                    },
                },
            }
        },
        Stmt::Return(e) => match lower_expr_spec(st, e, None) {
            Err(x) => Err(x),
            Ok((s1, _)) => Ok(s1),
        },
    }
}

/// The constant that a number literal stands for at type `ty`, or why there is none.
pub fn try_parse_number_literal(text: &String, ty: TypeKind) -> (r: Result<Constant, LowerError>)
    ensures
        r == number_constant(*text, ty),
{
    let s = text.as_str();
    let bad = || -> (e: LowerError)
        ensures
            e == LowerError::InvalidLiteral(*text, ty),
        { LowerError::InvalidLiteral(text.clone(), ty) };
    match ty {
        TypeKind::I8 => match parse_int(s, -0x80, 0x7f) {
            Some(v) => Ok(Constant::I8(v as i8)),
            None => Err(bad()),
        },
        TypeKind::I16 => match parse_int(s, -0x8000, 0x7fff) {
            Some(v) => Ok(Constant::I16(v as i16)),
            None => Err(bad()),
        },
        TypeKind::I32 => match parse_int(s, -0x8000_0000, 0x7fff_ffff) {
            Some(v) => Ok(Constant::I32(v as i32)),
            None => Err(bad()),
        },
        TypeKind::I64 => match parse_int(s, -0x8000_0000_0000_0000, 0x7fff_ffff_ffff_ffff) {
            Some(v) => Ok(Constant::I64(v as i64)),
            None => Err(bad()),
        },
        TypeKind::U8 => match parse_int(s, 0, 0xff) {
            Some(v) => Ok(Constant::U8(v as u8)),
            None => Err(bad()),
        },
        TypeKind::U16 => match parse_int(s, 0, 0xffff) {
            Some(v) => Ok(Constant::U16(v as u16)),
            None => Err(bad()),
        },
        TypeKind::U32 => match parse_int(s, 0, 0xffff_ffff) {
            Some(v) => Ok(Constant::U32(v as u32)),
            None => Err(bad()),
        },
        TypeKind::U64 => match parse_int(s, 0, 0xffff_ffff_ffff_ffff) {
            Some(v) => Ok(Constant::U64(v as u64)),
            None => Err(bad()),
        },
        TypeKind::F32 => if is_float_literal(s) {
            Ok(Constant::F32(text.clone()))
        } else {
            Err(bad())
        },
        TypeKind::F64 => if is_float_literal(s) {
            Ok(Constant::F64(text.clone()))
        } else {
            Err(bad())
        },
        _ => Err(LowerError::NonNumericLiteral(ty)),
    }
}

/// The constant that a number literal, which must read as a value of type
/// `ty`, stands for.
pub fn parse_number_literal(text: &String, ty: &TypeKind) -> (r: Constant)
    requires
        number_constant(*text, *ty) is Ok,
    ensures
        number_constant(*text, *ty) == Ok::<Constant, LowerError>(r),
{
    match try_parse_number_literal(text, *ty) {
        Ok(c) => c,
        Err(_) => {
            proof {
                assert(false);
            }
            Constant::Bool(false)
        },
    }
}

/// The condition under which lowering can add code: the current block exists.
pub open spec fn ctx_ok(ctx: LowerState) -> bool {
    ctx.cur.0 < ctx.func.blocks.len()
}

/// The type of the value `v` names in the function being built, or why there is none.
fn value_type(ctx: &LowerCtx, v: ValueId) -> (r: Result<TypeKind, LowerError>)
    ensures
        match value_ty_spec(ctx.func@, v) {
            Some(t) => r matches Ok(t2) && t2 == t,
            None => r matches Err(e) && e == LowerError::NotAValue(v),
        },
{
    match ctx.func.checked_value_ty(v) {
        Some(t) => Ok(t),
        None => Err(LowerError::NotAValue(v)),
    }
}

/// Lowers `expr` into the current block (and new blocks), given the type the
/// context expects; the value that stands for it.
pub fn lower_expr_to_vir(ctx: &mut LowerCtx, expr: &Expr, expected_ty: Option<TypeKind>) -> (r:
    Result<ValueId, LowerError>)
    requires
        ctx_ok(old(ctx)@),
    ensures
        ctx_ok(final(ctx)@),
        placed_valid(old(ctx)@.func) ==> placed_valid(final(ctx)@.func),
        final(ctx).func.blocks.len() >= old(ctx).func.blocks.len(),
        match lower_expr_spec(old(ctx)@, *expr, expected_ty) {
            Ok((st, v)) => r == Ok::<ValueId, LowerError>(v) && final(ctx)@ == st,
            Err(x) => r matches Err(y) && y == x,
        },
    decreases expr, 1int,
{
    match expr {
        Expr::NumberLiteral(n) => {
            let ty = match expected_ty {
                Some(t) => t,
                None => TypeKind::I64,
            };
            let value = try_parse_number_literal(n, ty)?;
            Ok(ctx.func.emit_const(ctx.current_block, value))
        },
        Expr::String(s) => {
            if let Some(expected) = expected_ty {
                if expected != TypeKind::String {
                    return Err(LowerError::StringTypeMismatch(expected));
                }
            }
            Ok(ctx.func.emit_const(ctx.current_block, Constant::String(s.clone())))
        },
        Expr::Bool(b) => {
            if let Some(expected) = expected_ty {
                if expected != TypeKind::Bool {
                    return Err(LowerError::BoolTypeMismatch(expected));
                }
            }
            Ok(ctx.func.emit_const(ctx.current_block, Constant::Bool(*b)))
        },
        Expr::Var(name) => match ctx.locals.get(name) {
            Some(b) => Ok(b.value),
            None => Err(LowerError::UnknownVariable(name.clone())),
        },
        Expr::Add(_, _) | Expr::Sub(_, _) | Expr::Mul(_, _) | Expr::Div(_, _) => lower_arith_to_vir(
            ctx,
            expr,
            expected_ty,
        ),
        Expr::Negate(inner) => {
            let inner_v = lower_expr_to_vir(ctx, inner, expected_ty)?;
            let ty = value_type(ctx, inner_v)?;
            Ok(ctx.func.emit_neg(ctx.current_block, inner_v, ty))
        },
        Expr::If { .. } => lower_if_to_vir(ctx, expr, expected_ty),
        Expr::Block(stmts) => lower_block_expr_to_vir(ctx, stmts, expected_ty),
        Expr::Call(_, _) => Err(LowerError::Unsupported(Unlowered::Call)),
        Expr::Number(_) => Err(LowerError::Unsupported(Unlowered::Number)),
    }
}

/// Checks that both operands of an arithmetic operator have type `ty`, then adds
/// the instruction to the current block.
fn emit_arith(ctx: &mut LowerCtx, op: ArithOp, lhs_v: ValueId, rhs_v: ValueId, ty: TypeKind) -> (r:
    Result<ValueId, LowerError>)
    requires
        ctx_ok(old(ctx)@),
    ensures
        ctx_ok(final(ctx)@),
        placed_valid(old(ctx)@.func) ==> placed_valid(final(ctx)@.func),
        final(ctx).func.blocks.len() == old(ctx).func.blocks.len(),
        match arith_finish(op, old(ctx)@, lhs_v, rhs_v, ty) {
            Ok((st, v)) => r == Ok::<ValueId, LowerError>(v) && final(ctx)@ == st,
            Err(x) => r matches Err(y) && y == x,
        },
{
    let lhs_ty = value_type(ctx, lhs_v)?;
    let rhs_ty = value_type(ctx, rhs_v)?;
    if lhs_ty != ty || rhs_ty != ty {
        return Err(LowerError::OperandMismatch(op, lhs_ty, rhs_ty, ty));
    }
    let kind = match op {
        ArithOp::Add => ValueInstKind::Add { lhs: lhs_v, rhs: rhs_v },
        ArithOp::Sub => ValueInstKind::Sub { lhs: lhs_v, rhs: rhs_v },
        ArithOp::Mul => ValueInstKind::Mul { lhs: lhs_v, rhs: rhs_v },
        ArithOp::Div => ValueInstKind::Div { lhs: lhs_v, rhs: rhs_v },
    };
    let id = ctx.func.append_inst(ctx.current_block, Inst::Value(ValueInst { kind, ty }));
    Ok(ValueId::Inst(id))
}

/// Lowers an arithmetic expression: the left operand at the expected type, the
/// right one at the type of the whole, then the instruction.
fn lower_arith_to_vir(ctx: &mut LowerCtx, expr: &Expr, expected_ty: Option<TypeKind>) -> (r: Result<
    ValueId,
    LowerError,
>)
    requires
        ctx_ok(old(ctx)@),
        expr is Add || expr is Sub || expr is Mul || expr is Div,
    ensures
        ctx_ok(final(ctx)@),
        placed_valid(old(ctx)@.func) ==> placed_valid(final(ctx)@.func),
        final(ctx).func.blocks.len() >= old(ctx).func.blocks.len(),
        match lower_expr_spec(old(ctx)@, *expr, expected_ty) {
            Ok((st, v)) => r == Ok::<ValueId, LowerError>(v) && final(ctx)@ == st,
            Err(x) => r matches Err(y) && y == x,
        },
    decreases expr, 0int,
{
    if let Expr::Add(lhs, rhs) = expr {
        let lhs_v = lower_expr_to_vir(ctx, lhs, expected_ty)?;
        let ty = match expected_ty {
            Some(t) => t,
            None => value_type(ctx, lhs_v)?,
        };
        let rhs_v = lower_expr_to_vir(ctx, rhs, Some(ty))?;
        return emit_arith(ctx, ArithOp::Add, lhs_v, rhs_v, ty);
    }
    if let Expr::Sub(lhs, rhs) = expr {
        let lhs_v = lower_expr_to_vir(ctx, lhs, expected_ty)?;
        let ty = match expected_ty {
            Some(t) => t,
            None => value_type(ctx, lhs_v)?,
        };
        let rhs_v = lower_expr_to_vir(ctx, rhs, Some(ty))?;
        return emit_arith(ctx, ArithOp::Sub, lhs_v, rhs_v, ty);
    }
    if let Expr::Mul(lhs, rhs) = expr {
        let lhs_v = lower_expr_to_vir(ctx, lhs, expected_ty)?;
        let ty = match expected_ty {
            Some(t) => t,
            None => value_type(ctx, lhs_v)?,
        };
        let rhs_v = lower_expr_to_vir(ctx, rhs, Some(ty))?;
        return emit_arith(ctx, ArithOp::Mul, lhs_v, rhs_v, ty);
    }
    if let Expr::Div(lhs, rhs) = expr {
        let lhs_v = lower_expr_to_vir(ctx, lhs, expected_ty)?;
        let ty = match expected_ty {
            Some(t) => t,
            None => value_type(ctx, lhs_v)?,
        };
        let rhs_v = lower_expr_to_vir(ctx, rhs, Some(ty))?;
        return emit_arith(ctx, ArithOp::Div, lhs_v, rhs_v, ty);
    }
    proof {
        assert(false);
    }
    Err(LowerError::Unsupported(Unlowered::Call))
}

/// Lowers an `if`: the condition branches to a then block and an else block, which
/// both jump to a join block that takes the value of the branch taken as a parameter.
fn lower_if_to_vir(ctx: &mut LowerCtx, expr: &Expr, expected_ty: Option<TypeKind>) -> (r: Result<
    ValueId,
    LowerError,
>)
    requires
        ctx_ok(old(ctx)@),
        expr is If,
    ensures
        ctx_ok(final(ctx)@),
        placed_valid(old(ctx)@.func) ==> placed_valid(final(ctx)@.func),
        final(ctx).func.blocks.len() >= old(ctx).func.blocks.len(),
        match lower_expr_spec(old(ctx)@, *expr, expected_ty) {
            Ok((st, v)) => r == Ok::<ValueId, LowerError>(v) && final(ctx)@ == st,
            Err(x) => r matches Err(y) && y == x,
        },
    decreases expr, 0int,
{
    match expr {
        Expr::If { condition, then_branch, else_branch } => {
            let cond_value = lower_expr_to_vir(ctx, condition, Some(TypeKind::Bool))?;
            let ghost s1 = ctx@;
            let then_block = ctx.func.new_block();
            let else_block = ctx.func.new_block();
            let join_block = ctx.func.new_block();
            ctx.func.append_inst(
                ctx.current_block,
                Inst::Effect(
                    EffectInst::Branch {
                        cond: cond_value,
                        then_block,
                        then_args: Vec::new(),
                        else_block,
                        else_args: Vec::new(),
                    },
                ),
            );
            assert(ctx.func@ == add_inst(
                add_block(add_block(add_block(s1.func))),
                s1.cur,
                InstV::Effect(
                    EffectV::Branch {
                        cond: cond_value,
                        then_block,
                        then_args: seq![],
                        else_block,
                        else_args: seq![],
                    },
                ),
            ));
            ctx.current_block = then_block;
            let then_value = lower_expr_to_vir(ctx, then_branch, None)?;
            let result_ty = value_type(ctx, then_value)?;
            let mut then_args: Vec<ValueId> = Vec::new();
            then_args.push(then_value);
            assert(then_args@ =~= seq![then_value]);
            ctx.func.append_inst(
                ctx.current_block,
                Inst::Effect(EffectInst::Jump { target: join_block, args: then_args }),
            );
            ctx.current_block = else_block;
            let else_value = match else_branch {
                Some(else_expr) => lower_expr_to_vir(ctx, else_expr, Some(result_ty))?,
                None => ctx.func.emit_const(ctx.current_block, Constant::I32(0)),
            };
            let mut else_args: Vec<ValueId> = Vec::new();
            else_args.push(else_value);
            assert(else_args@ =~= seq![else_value]);
            ctx.func.append_inst(
                ctx.current_block,
                Inst::Effect(EffectInst::Jump { target: join_block, args: else_args }),
            );
            let join_param_id = ctx.func.add_block_param(join_block, result_ty);
            ctx.current_block = join_block;
            Ok(ValueId::Param(join_param_id))
        },
        _ => {
            proof {
                assert(false);
            }
            Err(LowerError::Unsupported(Unlowered::Call))
        },
    }
}

/// Lowers the statements of a block; the value that stands for the block.
fn lower_block_expr_to_vir(ctx: &mut LowerCtx, stmts: &Vec<Stmt>, expected_ty: Option<TypeKind>) -> (r:
    Result<ValueId, LowerError>)
    requires
        ctx_ok(old(ctx)@),
    ensures
        ctx_ok(final(ctx)@),
        placed_valid(old(ctx)@.func) ==> placed_valid(final(ctx)@.func),
        final(ctx).func.blocks.len() >= old(ctx).func.blocks.len(),
        match lower_block_spec(
            emit_const_spec(old(ctx)@, Constant::I64(0)).0,
            stmts@,
            0,
            expected_ty,
            emit_const_spec(old(ctx)@, Constant::I64(0)).1,
        ) {
            Ok((st, v)) => r == Ok::<ValueId, LowerError>(v) && final(ctx)@ == st,
            Err(x) => r matches Err(y) && y == x,
        },
    decreases stmts, 0int,
{
    let ghost s0 = ctx@;
    let mut last_value = ctx.func.emit_const(ctx.current_block, Constant::I64(0));
    let ghost start = emit_const_spec(s0, Constant::I64(0));
    assert(ctx@ == start.0);
    let mut i: usize = 0;
    while i < stmts.len()
        invariant
            ctx_ok(ctx@),
            placed_valid(s0.func) ==> placed_valid(ctx.func@),
            s0 == old(ctx)@,
            start == emit_const_spec(s0, Constant::I64(0)),
            ctx.func.blocks.len() >= s0.func.blocks.len(),
            i <= stmts.len(),
            lower_block_spec(ctx@, stmts@, i as int, expected_ty, last_value) == lower_block_spec(
                start.0,
                stmts@,
                0,
                expected_ty,
                start.1,
            ),
        decreases stmts.len() - i,
    {
        proof {
            assert(decreases_to!(*stmts => stmts@[i as int]));
        }
        match &stmts[i] {
            Stmt::ExprStmt(expr) => {
                let val = lower_expr_to_vir(ctx, expr, expected_ty)?;
                last_value = val;
            },
            Stmt::Let(name, expr, mutable, ty_opt) => {
                let ty = match ty_opt {
                    Some(t) => *t,
                    None => {
                        return Err(LowerError::BlockLetMissingType(name.clone()));
                    },
                };
                let val = lower_expr_to_vir(ctx, expr, Some(ty))?;
                ctx.locals.insert(name.clone(), LocalBinding { value: val, ty, mutable: *mutable });
                last_value = val;
            },
            Stmt::Reassign(name, expr) => {
                let binding = match ctx.locals.get(name) {
                    Some(b) => b,
                    None => {
                        return Err(LowerError::UnknownVariable(name.clone()));
                    },
                };
                if !binding.mutable {
                    return Err(LowerError::ReassignImmutable(name.clone(), true));
                }
                let binding_ty = binding.ty;
                let val = lower_expr_to_vir(ctx, expr, Some(binding_ty))?;
                let actual_ty = value_type(ctx, val)?;
                if actual_ty != binding_ty {
                    return Err(LowerError::AssignTypeMismatch(name.clone(), actual_ty, binding_ty));
                }
                ctx.locals.insert(
                    name.clone(),
                    LocalBinding { value: val, ty: binding_ty, mutable: true },
                );
                last_value = val;
            },
            Stmt::Return(expr) => {
                let val = lower_expr_to_vir(ctx, expr, expected_ty)?;
                ctx.func.emit_return(ctx.current_block, Some(val));
                return Ok(val);
            },
            Stmt::Print(expr) => {
                let val = lower_expr_to_vir(ctx, expr, None)?;
                ctx.func.emit_print(ctx.current_block, val);
            },
        }
        i = i + 1;
    }
    Ok(last_value)
}

/// Lowers a top-level statement into the current block (and new blocks).
pub fn lower_stmt_to_vir(ctx: &mut LowerCtx, stmt: &Stmt) -> (r: Result<(), LowerError>)
    requires
        ctx_ok(old(ctx)@),
    ensures
        ctx_ok(final(ctx)@),
        placed_valid(old(ctx)@.func) ==> placed_valid(final(ctx)@.func),
        final(ctx).func.blocks.len() >= old(ctx).func.blocks.len(),
        match lower_stmt_spec(old(ctx)@, *stmt) {
            Ok(st) => r is Ok && final(ctx)@ == st,
            Err(x) => r matches Err(y) && y == x,
        },
{
    reveal(lower_stmt_spec);
    match stmt {
        Stmt::Print(expr) => {
            let value = lower_expr_to_vir(ctx, expr, None)?;
            ctx.func.emit_print(ctx.current_block, value);
            Ok(())
        },
        Stmt::Let(name, expr, is_mutable, declared_ty) => {
            let ty = match declared_ty {
                Some(t) => *t,
                None => {
                    return Err(LowerError::MissingLetType(name.clone()));
                },
            };
            let value = lower_expr_to_vir(ctx, expr, Some(ty))?;
            let actual_ty = value_type(ctx, value)?;
            if actual_ty != ty {
                return Err(LowerError::LetTypeMismatch(name.clone(), ty, actual_ty));
            }
            ctx.locals.insert(
                name.clone(),
                LocalBinding { value, ty: actual_ty, mutable: *is_mutable },
            );
            Ok(())
        },
        Stmt::ExprStmt(expr) => {
            lower_expr_to_vir(ctx, expr, None)?;
            Ok(())
        },
        Stmt::Reassign(name, expr) => {
            let binding = match ctx.locals.get(name) {
                Some(b) => b,
                None => {
                    return Err(LowerError::UnknownVariable(name.clone()));
                },
            };
            if !binding.mutable {
                return Err(LowerError::ReassignImmutable(name.clone(), false));
            }
            let value = lower_expr_to_vir(ctx, expr, Some(binding.ty))?;
            let actual_ty = value_type(ctx, value)?;
            if actual_ty != binding.ty {
                return Err(LowerError::AssignTypeMismatch(name.clone(), actual_ty, binding.ty));
            }
            ctx.locals.insert(
                name.clone(),
                LocalBinding { value, ty: binding.ty, mutable: true },
            );
            Ok(())
        },
        Stmt::Return(expr) => {
            lower_expr_to_vir(ctx, expr, None)?;
            Ok(())
        },
    }
}

/// The name of the first function declared with a name that an earlier one has,
/// scanning from `i` with the names `seen` so far.
pub open spec fn duplicate_scan(items: Seq<Item>, i: int, seen: Set<Seq<char>>) -> Option<String>
    decreases items.len() - i,
{
    if i < 0 || i >= items.len() {
        None
    } else {
        match items[i] {
            Item::Function(f) => if seen.contains(f.name@) {
                Some(f.name)
            } else {
                duplicate_scan(items, i + 1, seen.insert(f.name@))
            },
            Item::Stmt(_) => duplicate_scan(items, i + 1, seen),
        }
    }
}

/// Lowering the statements among `items` from `i` on, in order.
pub open spec fn lower_items_spec(st: LowerState, items: Seq<Item>, i: int) -> Result<
    LowerState,
    LowerError,
>
    decreases items.len() - i,
{
    if i < 0 || i >= items.len() {
        Ok(st)
    } else {
        match items[i] {
            Item::Stmt(stmt) => match lower_stmt_spec(st, stmt) {
                Ok(s2) => lower_items_spec(s2, items, i + 1),
                Err(x) => Err(x),
            },
            Item::Function(_) => lower_items_spec(st, items, i + 1),
        }
    }
}

/// The name of the function that holds the top-level statements.
pub open spec fn global_name() -> Seq<char> {
    seq!['g', 'l', 'o', 'b', 'a', 'l']
}

/// Lowering starts in the entry block of an empty `global` function, with no locals.
pub open spec fn initial_state() -> LowerState {
    LowerState {
        func: new_function(global_name()),
        cur: BlockId(0),
        locals: Map::empty(),
    }
}

/// The end of lowering: the last block gets a final return, and the function
/// must be well-formed.
pub open spec fn finish_spec(st: LowerState) -> Result<FuncV, LowerError> {
    if (st.func.blocks.len() as u32) < 1 {
        Err(LowerError::TooManyBlocks)
    } else {
        let f = with_final_return(st.func);
        match verify_function_spec(f) {
            Err(e) => Err(LowerError::Invalid(0, e)),
            Ok(()) => Ok(f),
        }
    }
}

/// Lowering a program: function names must differ; the top-level statements
/// are lowered in order into the `global` function, which is then finished.
pub open spec fn lower_program_spec(items: Seq<Item>) -> Result<FuncV, LowerError> {
    match duplicate_scan(items, 0, Set::empty()) {
        Some(n) => Err(LowerError::DuplicateFunction(n)),
        None => match lower_items_spec(initial_state(), items, 0) {
            Err(x) => Err(x),
            Ok(st) => finish_spec(st),
        },
    }
}

/// Checks that no two functions of the program have the same name.
pub fn check_function_names(ast: &Program) -> (r: Result<(), LowerError>)
    ensures
        match duplicate_scan(ast.items@, 0, Set::empty()) {
            Some(n) => r matches Err(y) && y == LowerError::DuplicateFunction(n),
            None => r is Ok,
        },
{
    let mut names: NameMap<bool> = NameMap::new();
    let mut i: usize = 0;
    while i < ast.items.len()
        invariant
            i <= ast.items.len(),
            duplicate_scan(ast.items@, i as int, names@.dom()) == duplicate_scan(
                ast.items@,
                0,
                Set::empty(),
            ),
        decreases ast.items.len() - i,
    {
        if let Item::Function(fnct) = &ast.items[i] {
            if names.get(&fnct.name).is_some() {
                return Err(LowerError::DuplicateFunction(fnct.name.clone()));
            }
            names.insert(fnct.name.clone(), true);
        }
        i = i + 1;
    }
    Ok(())
}

impl LowerCtx {
    /// Lowering at its start: the entry block of an empty `global` function.
    pub fn new_global() -> (ctx: LowerCtx)
        ensures
            ctx@ == initial_state(),
            ctx_ok(ctx@),
    {
        proof {
            reveal_strlit("global");
            assert("global"@ =~= global_name());
        }
        let ctx = LowerCtx {
            func: VirFunction::new(String::from_str("global")),
            current_block: BlockId(0),
            locals: NameMap::new(),
        };
        assert(ctx@.locals =~= Map::<Seq<char>, LocalBinding>::empty());
        ctx
    }
}

/// Ends lowering: adds a final return to the last block and checks the function.
pub fn finish_lowering(ctx: LowerCtx) -> (r: Result<Vir, LowerError>)
    requires
        ctx.func.blocks.len() as u32 >= 1 ==> last_inst_valid(ctx.func@),
    ensures
        match finish_spec(ctx@) {
            Ok(f) => r matches Ok(v) && v.functions@.len() == 1 && v.functions@[0]@ == f,
            Err(x) => r matches Err(y) && y == x,
        },
{
    let mut func = ctx.func;
    if (#[verifier::truncate] (func.blocks.len() as u32)) < 1 {
        return Err(LowerError::TooManyBlocks);
    }
    func.ensure_final_return();
    if let Err(e) = check_function(&func) {
        return Err(LowerError::Invalid(0, e));
    }
    let mut functions: Vec<VirFunction> = Vec::new();
    functions.push(func);
    Ok(Vir { functions })
}

/// Lowers a program into one function, `global`, that holds its top-level
/// statements; see `lower_program_spec`.
pub fn try_lower_program(ast: &Program) -> (r: Result<Vir, LowerError>)
    ensures
        match lower_program_spec(ast.items@) {
            Ok(f) => r matches Ok(v) && v.functions@.len() == 1 && v.functions@[0]@ == f,
            Err(x) => r matches Err(y) && y == x,
        },
{
    check_function_names(ast)?;
    let mut ctx = LowerCtx::new_global();
    let mut i: usize = 0;
    while i < ast.items.len()
        invariant
            ctx_ok(ctx@),
            placed_valid(ctx.func@),
            duplicate_scan(ast.items@, 0, Set::empty()) is None,
            i <= ast.items.len(),
            lower_items_spec(ctx@, ast.items@, i as int) == lower_items_spec(
                initial_state(),
                ast.items@,
                0,
            ),
        decreases ast.items.len() - i,
    {
        if let Item::Stmt(stmt) = &ast.items[i] {
            lower_stmt_to_vir(&mut ctx, stmt)?;
        }
        i = i + 1;
    }
    proof {
        lemma_u32_trunc(ctx.func.blocks.len());
        let f = ctx.func@;
        if f.blocks.len() as u32 >= 1 {
            let b = last_block(f).0 as int;
            let last = f.blocks[b];
            if last.insts.len() > 0 {
                assert(last.insts.last() == f.blocks[b].insts[last.insts.len() - 1]);
            }
        }
    }
    finish_lowering(ctx)
}

/// Lowers a program, which must lower, into one function, `global`, that holds
/// its top-level statements.
pub fn lower_program(ast: &Program) -> (r: Vir)
    requires
        lower_program_spec(ast.items@) is Ok,
    ensures
        r.functions@.len() == 1,
        lower_program_spec(ast.items@) == Ok::<FuncV, LowerError>(r.functions@[0]@),
{
    match try_lower_program(ast) {
        Ok(v) => v,
        Err(_) => {
            proof {
                assert(false);
            }
            Vir { functions: Vec::new() }
        },
    }
}

} // verus!
