use vstd::prelude::*;
use vstd::string::*;

use crate::grammar::{TypeKind, numeric_type};
use crate::messages::verify_error_text;
use crate::text::{nat_decimal, push_decimal};
use crate::vir::{BlockId, BlockParamData, EffectInst, EffectV, FuncV, Inst, InstId, InstV, ParamId, ValueId, ValueInst, ValueInstKind, Vir, VirFunction, constant_ty, terminator, is_terminator, is_numeric_ty};

verus! {

/// Why a function is not well-formed VIR.
#[derive(Clone, Copy, Debug, PartialEq, Eq, Structural)]
pub enum VerifyError {
    /// The entry block does not exist.
    EntryMissing { entry: BlockId, num_blocks: usize },
    /// A block lists a parameter id that does not exist.
    InvalidParam { block: BlockId, param: ParamId },
    /// A block lists a parameter that belongs to another block.
    ParamOwnerMismatch { block: BlockId, param: ParamId, owner: BlockId },
    /// A block without instructions.
    EmptyBlock { block: BlockId },
    /// A block lists an instruction id that does not exist.
    InvalidInst { block: BlockId, inst: InstId },
    /// A block goes on after a terminator.
    InstAfterTerminator { block: BlockId, inst: InstId },
    /// An instruction placed twice, first in `first` and again in `second`.
    InstInTwoBlocks { inst: InstId, first: BlockId, second: BlockId },
    /// A block whose last instruction is not a terminator.
    MissingTerminator { block: BlockId },
    /// An instruction that no block places.
    UnplacedInst { index: usize },
    /// A constant whose result type is not its own type.
    ConstTypeMismatch { inst: InstId, const_ty: TypeKind, result_ty: TypeKind },
    /// Arithmetic on operands of two different types.
    OperandTypeMismatch { inst: InstId, lhs: TypeKind, rhs: TypeKind },
    /// Arithmetic whose result type is not its operands' type.
    ResultTypeMismatch { inst: InstId, result: TypeKind, operand: TypeKind },
    /// Arithmetic on a type that is not numeric.
    NonNumericArith { inst: InstId, ty: TypeKind },
    /// A negation whose result type is not its operand's type.
    NegTypeMismatch { inst: InstId, result: TypeKind, operand: TypeKind },
    /// A negation of a type that is not numeric.
    NonNumericNeg { inst: InstId, ty: TypeKind },
    /// A return of a value from a function that returns none.
    ReturnValueInVoid { inst: InstId, ty: TypeKind },
    /// A return of no value from a function that returns one.
    MissingReturnValue { inst: InstId, ret_ty: TypeKind },
    /// A return of a value of another type than the function's.
    ReturnTypeMismatch { inst: InstId, value_ty: TypeKind, ret_ty: TypeKind },
    /// A branch on a condition that is not `bool`.
    NonBoolBranch { inst: InstId, ty: TypeKind },
    /// A jump or branch to a block that does not exist.
    InvalidJumpTarget { inst: InstId, target: BlockId },
    /// A jump or branch passing another number of arguments than the target has parameters.
    JumpArgCount { inst: InstId, target: BlockId, passed: usize, expected: usize },
    /// A jump or branch passing an argument of another type than its parameter's.
    JumpArgType { inst: InstId, target: BlockId, arg_ty: TypeKind, param: ParamId, param_ty: TypeKind },
    /// A value naming an instruction that does not exist.
    ValueOutOfRange { inst: u32 },
    /// A value naming an instruction that produces no value.
    ValueIsEffect { inst: u32 },
    /// A value naming a block parameter that does not exist.
    ParamOutOfRange { param: u32 },
}

/// The type of the value `v` names in `f`, or why it names none.
pub open spec fn checked_ty(f: FuncV, v: ValueId) -> Result<TypeKind, VerifyError> {
    match v {
        ValueId::Inst(id) => if id.0 >= f.insts.len() {
            Err(VerifyError::ValueOutOfRange { inst: id.0 })
        } else {
            match f.insts[id.0 as int] {
                InstV::Value(vi) => Ok(vi.ty),
                InstV::Effect(_) => Err(VerifyError::ValueIsEffect { inst: id.0 }),
            }
        },
        ValueId::Param(p) => if p.0 >= f.block_params.len() {
            Err(VerifyError::ParamOutOfRange { param: p.0 })
        } else {
            Ok(f.block_params[p.0 as int].ty)
        },
    }
}

/// The first fault in the parameter lists of blocks `b` on (from parameter `k`
/// of block `b`): each must exist and belong to its block.
pub open spec fn params_scan(f: FuncV, b: int, k: int) -> Option<VerifyError>
    decreases f.blocks.len() - b, f.blocks[b].params.len() - k,
{
    if b < 0 || b >= f.blocks.len() {
        None
    } else if k < 0 || k >= f.blocks[b].params.len() {
        params_scan(f, b + 1, 0)
    } else {
        let p = f.blocks[b].params[k];
        let block = BlockId(b as u32);
        if p.0 >= f.block_params.len() {
            Some(VerifyError::InvalidParam { block, param: p })
        } else if f.block_params[p.0 as int].block != block {
            Some(
                VerifyError::ParamOwnerMismatch {
                    block,
                    param: p,
                    owner: f.block_params[p.0 as int].block,
                },
            )
        } else {
            params_scan(f, b, k + 1)
        }
    }
}

/// The first fault in the instruction lists of blocks `b` on (from position `k`
/// of block `b`), given which block placed each instruction so far (`owner`)
/// and whether block `b` has reached a terminator: on success, the owners.
pub open spec fn structure_scan(
    f: FuncV,
    b: int,
    k: int,
    owner: Seq<Option<BlockId>>,
    saw: bool,
) -> Result<Seq<Option<BlockId>>, VerifyError>
    decreases f.blocks.len() - b, f.blocks[b].insts.len() - k,
{
    if b < 0 || b >= f.blocks.len() {
        Ok(owner)
    } else {
        let ids = f.blocks[b].insts;
        let block = BlockId(b as u32);
        if ids.len() == 0 {
            Err(VerifyError::EmptyBlock { block })
        } else if k < 0 || k >= ids.len() {
            if !terminator(f.insts[ids.last().0 as int]) {
                Err(VerifyError::MissingTerminator { block })
            } else {
                structure_scan(f, b + 1, 0, owner, false)
            }
        } else {
            let id = ids[k];
            if id.0 >= f.insts.len() {
                Err(VerifyError::InvalidInst { block, inst: id })
            } else if saw {
                Err(VerifyError::InstAfterTerminator { block, inst: id })
            } else if owner[id.0 as int] is Some {
                Err(
                    VerifyError::InstInTwoBlocks {
                        inst: id,
                        first: owner[id.0 as int].unwrap(),
                        second: block,
                    },
                )
            } else {
                structure_scan(
                    f,
                    b,
                    k + 1,
                    owner.update(id.0 as int, Some(block)),
                    terminator(f.insts[id.0 as int]),
                )
            }
        }
    }
}

/// The first index from `i` on that no block placed.
pub open spec fn first_unplaced(owner: Seq<Option<BlockId>>, i: int) -> Option<VerifyError>
    decreases owner.len() - i,
{
    if i < 0 || i >= owner.len() {
        None
    } else if owner[i] is None {
        Some(VerifyError::UnplacedInst { index: i as usize })
    } else {
        first_unplaced(owner, i + 1)
    }
}

/// No instruction placed yet, for `n` instructions.
pub open spec fn no_owners(n: nat) -> Seq<Option<BlockId>> {
    Seq::new(n, |i: int| None)
}

/// The first fault in how blocks place instructions.
pub open spec fn structure_check(f: FuncV) -> Option<VerifyError> {
    match structure_scan(f, 0, 0, no_owners(f.insts.len()), false) {
        Err(e) => Some(e),
        Ok(owner) => first_unplaced(owner, 0),
    }
}

/// The first fault in the arguments of a jump to `target`: the target must exist
/// and take as many parameters, of the arguments' types.
pub open spec fn jump_check(f: FuncV, inst: InstId, target: BlockId, args: Seq<ValueId>) -> Option<
    VerifyError,
> {
    if target.0 >= f.blocks.len() {
        Some(VerifyError::InvalidJumpTarget { inst, target })
    } else if f.blocks[target.0 as int].params.len() != args.len() {
        Some(
            VerifyError::JumpArgCount {
                inst,
                target,
                passed: args.len() as usize,
                expected: f.blocks[target.0 as int].params.len() as usize,
            },
        )
    } else {
        jump_args_scan(f, inst, target, args, 0)
    }
}

/// The first argument from `k` on whose type is not its parameter's.
pub open spec fn jump_args_scan(
    f: FuncV,
    inst: InstId,
    target: BlockId,
    args: Seq<ValueId>,
    k: int,
) -> Option<VerifyError>
    decreases args.len() - k,
{
    if k < 0 || k >= args.len() {
        None
    } else {
        let pid = f.blocks[target.0 as int].params[k];
        let param = f.block_params[pid.0 as int];
        match checked_ty(f, args[k]) {
            Err(e) => Some(e),
            Ok(t) => if t != param.ty {
                Some(
                    VerifyError::JumpArgType {
                        inst,
                        target,
                        arg_ty: t,
                        param: pid,
                        param_ty: param.ty,
                    },
                )
            } else {
                jump_args_scan(f, inst, target, args, k + 1)
            },
        }
    }
}

/// The fault of a value instruction: operands must name values of the result
/// type, which is numeric for arithmetic, and a constant has its own type.
pub open spec fn value_inst_check(f: FuncV, id: InstId, vi: ValueInst) -> Option<VerifyError> {
    match vi.kind {
        ValueInstKind::Const { value } => if constant_ty(value) != vi.ty {
            Some(
                VerifyError::ConstTypeMismatch {
                    inst: id,
                    const_ty: constant_ty(value),
                    result_ty: vi.ty,
                },
            )
        } else {
            None
        },
        ValueInstKind::Add { lhs, rhs } => arith_check(f, id, lhs, rhs, vi.ty),
        ValueInstKind::Sub { lhs, rhs } => arith_check(f, id, lhs, rhs, vi.ty),
        ValueInstKind::Mul { lhs, rhs } => arith_check(f, id, lhs, rhs, vi.ty),
        ValueInstKind::Div { lhs, rhs } => arith_check(f, id, lhs, rhs, vi.ty),
        ValueInstKind::Neg { value } => match checked_ty(f, value) {
            Err(e) => Some(e),
            Ok(t) => if t != vi.ty {
                Some(VerifyError::NegTypeMismatch { inst: id, result: vi.ty, operand: t })
            } else if !numeric_type(t) {
                Some(VerifyError::NonNumericNeg { inst: id, ty: t })
            } else {
                None
            },
        },
    }
}

/// The fault of a binary arithmetic instruction.
pub open spec fn arith_check(f: FuncV, id: InstId, lhs: ValueId, rhs: ValueId, ty: TypeKind) -> Option<
    VerifyError,
> {
    match checked_ty(f, lhs) {
        Err(e) => Some(e),
        Ok(lt) => match checked_ty(f, rhs) {
            Err(e) => Some(e),
            Ok(rt) => if lt != rt {
                Some(VerifyError::OperandTypeMismatch { inst: id, lhs: lt, rhs: rt })
            } else if lt != ty {
                Some(VerifyError::ResultTypeMismatch { inst: id, result: ty, operand: lt })
            } else if !numeric_type(lt) {
                Some(VerifyError::NonNumericArith { inst: id, ty: lt })
            } else {
                None
            },
        },
    }
}

/// The fault of an effect instruction: printed values must exist, returns must
/// agree with the function's return type, branches must test a `bool`, and
/// jumps must pass their targets' parameters.
pub open spec fn effect_inst_check(f: FuncV, id: InstId, e: EffectV) -> Option<VerifyError> {
    match e {
        EffectV::Print { value } => match checked_ty(f, value) {
            Err(x) => Some(x),
            Ok(_) => None,
        },
        EffectV::Return { value } => match (f.ret_ty, value) {
            (None, None) => None,
            (None, Some(v)) => match checked_ty(f, v) {
                Err(x) => Some(x),
                Ok(t) => Some(VerifyError::ReturnValueInVoid { inst: id, ty: t }),
            },
            (Some(r), None) => Some(VerifyError::MissingReturnValue { inst: id, ret_ty: r }),
            (Some(r), Some(v)) => match checked_ty(f, v) {
                Err(x) => Some(x),
                Ok(t) => if t != r {
                    Some(VerifyError::ReturnTypeMismatch { inst: id, value_ty: t, ret_ty: r })
                } else {
                    None
                },
            },
        },
        EffectV::Branch { cond, then_block, then_args, else_block, else_args } => match checked_ty(
            f,
            cond,
        ) {
            Err(x) => Some(x),
            Ok(t) => if t != TypeKind::Bool {
                Some(VerifyError::NonBoolBranch { inst: id, ty: t })
            } else {
                match jump_check(f, id, then_block, then_args) {
                    Some(x) => Some(x),
                    None => jump_check(f, id, else_block, else_args),
                }
            },
        },
        EffectV::Jump { target, args } => jump_check(f, id, target, args),
    }
}

/// The first fault among the instructions from index `i` on.
pub open spec fn insts_scan(f: FuncV, i: int) -> Option<VerifyError>
    decreases f.insts.len() - i,
{
    if i < 0 || i >= f.insts.len() {
        None
    } else {
        let id = InstId(i as u32);
        let r = match f.insts[i] {
            InstV::Value(vi) => value_inst_check(f, id, vi),
            InstV::Effect(e) => effect_inst_check(f, id, e),
        };
        match r {
            Some(x) => Some(x),
            None => insts_scan(f, i + 1),
        }
    }
}

/// Checking a function: the entry block exists, then the block parameters, the
/// placing of instructions in blocks, and each instruction, in that order; the
/// first fault found.
pub open spec fn verify_function_spec(f: FuncV) -> Result<(), VerifyError> {
    if f.entry.0 >= f.blocks.len() {
        Err(VerifyError::EntryMissing { entry: f.entry, num_blocks: f.blocks.len() as usize })
    } else {
        match params_scan(f, 0, 0) {
            Some(e) => Err(e),
            None => match structure_check(f) {
                Some(e) => Err(e),
                None => match insts_scan(f, 0) {
                    Some(e) => Err(e),
                    None => Ok(()),
                },
            },
        }
    }
}

/// An optional fault as a result.
pub open spec fn as_result(o: Option<VerifyError>) -> Result<(), VerifyError> {
    match o {
        Some(e) => Err(e),
        None => Ok(()),
    }
}

/// Every parameter that a block lists exists.
pub open spec fn params_exist(f: FuncV) -> bool {
    forall|b: int, k: int|
        0 <= b < f.blocks.len() && 0 <= k < f.blocks[b].params.len() ==> (#[trigger] f.blocks[b].params[k]).0
            < f.block_params.len()
}

proof fn lemma_params_scan_exist(f: FuncV, b: int, k: int)
    requires
        0 <= b,
        0 <= k,
        params_scan(f, b, k) is None,
    ensures
        forall|b2: int, k2: int|
            b <= b2 < f.blocks.len() && 0 <= k2 < f.blocks[b2].params.len() && (b2 > b || k2 >= k)
                ==> (#[trigger] f.blocks[b2].params[k2]).0 < f.block_params.len(),
    decreases f.blocks.len() - b, f.blocks[b].params.len() - k,
{
    if b < f.blocks.len() {
        if k >= f.blocks[b].params.len() {
            lemma_params_scan_exist(f, b + 1, 0);
        } else {
            lemma_params_scan_exist(f, b, k + 1);
        }
    }
}

/// The type of the value `value` names in `func`, or why it names none.
fn value_ty_checked(func: &VirFunction, value: ValueId) -> (r: Result<TypeKind, VerifyError>)
    ensures
        r == checked_ty(func@, value),
{
    match value {
        ValueId::Inst(inst_id) => {
            let inst_idx = inst_id.0 as usize;
            if inst_idx >= func.insts.len() {
                return Err(VerifyError::ValueOutOfRange { inst: inst_id.0 });
            }
            match &func.insts[inst_idx] {
                Inst::Value(value_inst) => Ok(value_inst.ty),
                Inst::Effect(_) => Err(VerifyError::ValueIsEffect { inst: inst_id.0 }),
            }
        },
        ValueId::Param(param_id) => {
            let param_idx = param_id.0 as usize;
            if param_idx >= func.block_params.len() {
                return Err(VerifyError::ParamOutOfRange { param: param_id.0 });
            }
            Ok(func.block_params[param_idx].ty)
        },
    }
}

fn verify_block_params(func: &VirFunction) -> (r: Result<(), VerifyError>)
    ensures
        r == as_result(params_scan(func@, 0, 0)),
{
    let ghost f = func@;
    let mut b: usize = 0;
    while b < func.blocks.len()
        invariant
            f == func@,
            b <= func.blocks.len(),
            params_scan(f, b as int, 0) == params_scan(f, 0, 0),
        decreases func.blocks.len() - b,
    {
        let block = &func.blocks[b];
        let block_id = BlockId(#[verifier::truncate] (b as u32));
        let mut k: usize = 0;
        while k < block.params.len()
            invariant
                f == func@,
                b < func.blocks.len(),
                *block == func.blocks@[b as int],
                block_id == BlockId(b as u32),
                k <= block.params.len(),
                params_scan(f, b as int, k as int) == params_scan(f, 0, 0),
            decreases block.params.len() - k,
        {
            let param_id = block.params[k];
            let param_idx = param_id.0 as usize;
            if param_idx >= func.block_params.len() {
                return Err(VerifyError::InvalidParam { block: block_id, param: param_id });
            }
            let param = func.block_params[param_idx];
            if param.block != block_id {
                return Err(
                    VerifyError::ParamOwnerMismatch {
                        block: block_id,
                        param: param_id,
                        owner: param.block,
                    },
                );
            }
            k = k + 1;
        }
        b = b + 1;
    }
    Ok(())
}

fn verify_block_structure(func: &VirFunction) -> (r: Result<(), VerifyError>)
    ensures
        r == as_result(structure_check(func@)),
{
    let ghost f = func@;
    let n = func.insts.len();
    let mut inst_owner: Vec<Option<BlockId>> = Vec::new();
    while inst_owner.len() < n
        invariant
            n == func.insts.len(),
            inst_owner.len() <= n,
            forall|i: int| 0 <= i < inst_owner.len() ==> inst_owner@[i] is None,
        decreases n - inst_owner.len(),
    {
        inst_owner.push(None);
    }
    let ghost init = inst_owner@;
    assert(init =~= no_owners(f.insts.len()));
    let mut b: usize = 0;
    while b < func.blocks.len()
        invariant
            f == func@,
            n == func.insts.len(),
            inst_owner@.len() == n,
            init == no_owners(f.insts.len()),
            b <= func.blocks.len(),
            structure_scan(f, b as int, 0, inst_owner@, false) == structure_scan(
                f,
                0,
                0,
                init,
                false,
            ),
        decreases func.blocks.len() - b,
    {
        let block = &func.blocks[b];
        let block_id = BlockId(#[verifier::truncate] (b as u32));
        assert(f.blocks[b as int] == block@);
        if block.insts.len() == 0 {
            return Err(VerifyError::EmptyBlock { block: block_id });
        }
        let mut saw_terminator = false;
        let mut k: usize = 0;
        while k < block.insts.len()
            invariant
                f == func@,
                n == func.insts.len(),
                inst_owner@.len() == n,
                init == no_owners(f.insts.len()),
                b < func.blocks.len(),
                *block == func.blocks@[b as int],
                f.blocks[b as int] == block@,
                block.insts.len() > 0,
                block_id == BlockId(b as u32),
                k <= block.insts.len(),
                forall|j: int| 0 <= j < k ==> (#[trigger] block.insts@[j]).0 < n,
                structure_scan(f, b as int, k as int, inst_owner@, saw_terminator)
                    == structure_scan(f, 0, 0, init, false),
            decreases block.insts.len() - k,
        {
            let inst_id = block.insts[k];
            let inst_idx = inst_id.0 as usize;
            if inst_idx >= n {
                return Err(VerifyError::InvalidInst { block: block_id, inst: inst_id });
            }
            if saw_terminator {
                return Err(VerifyError::InstAfterTerminator { block: block_id, inst: inst_id });
            }
            if let Some(owner) = inst_owner[inst_idx] {
                return Err(
                    VerifyError::InstInTwoBlocks { inst: inst_id, first: owner, second: block_id },
                );
            }
            inst_owner.set(inst_idx, Some(block_id));
            saw_terminator = is_terminator(&func.insts[inst_idx]);
            k = k + 1;
        }
        let last_inst_id = block.insts[block.insts.len() - 1];
        assert(block.insts@.last() == block.insts@[block.insts.len() - 1]);
        if !is_terminator(&func.insts[last_inst_id.0 as usize]) {
            return Err(VerifyError::MissingTerminator { block: block_id });
        }
        b = b + 1;
    }
    assert(structure_scan(f, b as int, 0, inst_owner@, false) == Ok::<
        Seq<Option<BlockId>>,
        VerifyError,
    >(inst_owner@));
    let mut i: usize = 0;
    while i < n
        invariant
            f == func@,
            n == inst_owner@.len(),
            init == no_owners(f.insts.len()),
            structure_scan(f, 0, 0, init, false) == Ok::<Seq<Option<BlockId>>, VerifyError>(
                inst_owner@,
            ),
            i <= n,
            first_unplaced(inst_owner@, i as int) == first_unplaced(inst_owner@, 0),
        decreases n - i,
    {
        if inst_owner[i].is_none() {
            return Err(VerifyError::UnplacedInst { index: i });
        }
        i = i + 1;
    }
    Ok(())
}

/// Checks the arguments of a jump from instruction `inst_id` to `target`.
fn verify_jump_args(func: &VirFunction, inst_id: InstId, target: BlockId, args: &Vec<ValueId>) -> (r:
    Result<(), VerifyError>)
    requires
        params_exist(func@),
    ensures
        r == as_result(jump_check(func@, inst_id, target, args@)),
{
    let ghost f = func@;
    if target.0 as usize >= func.blocks.len() {
        return Err(VerifyError::InvalidJumpTarget { inst: inst_id, target });
    }
    let block = &func.blocks[target.0 as usize];
    if block.params.len() != args.len() {
        return Err(
            VerifyError::JumpArgCount {
                inst: inst_id,
                target,
                passed: args.len(),
                expected: block.params.len(),
            },
        );
    }
    let mut k: usize = 0;
    while k < args.len()
        invariant
            f == func@,
            params_exist(f),
            target.0 < func.blocks.len(),
            *block == func.blocks@[target.0 as int],
            block.params.len() == args.len(),
            k <= args.len(),
            jump_args_scan(f, inst_id, target, args@, k as int) == jump_args_scan(
                f,
                inst_id,
                target,
                args@,
                0,
            ),
        decreases args.len() - k,
    {
        let param_id = block.params[k];
        assert(f.blocks[target.0 as int].params[k as int] == param_id);
        let param = func.block_params[param_id.0 as usize];
        let arg_ty = value_ty_checked(func, args[k])?;
        if arg_ty != param.ty {
            return Err(
                VerifyError::JumpArgType {
                    inst: inst_id,
                    target,
                    arg_ty,
                    param: param_id,
                    param_ty: param.ty,
                },
            );
        }
        k = k + 1;
    }
    Ok(())
}

fn verify_arith(func: &VirFunction, inst_id: InstId, lhs: ValueId, rhs: ValueId, ty: TypeKind) -> (r:
    Result<(), VerifyError>)
    ensures
        r == as_result(arith_check(func@, inst_id, lhs, rhs, ty)),
{
    let lhs_ty = value_ty_checked(func, lhs)?;
    let rhs_ty = value_ty_checked(func, rhs)?;
    if lhs_ty != rhs_ty {
        return Err(VerifyError::OperandTypeMismatch { inst: inst_id, lhs: lhs_ty, rhs: rhs_ty });
    }
    if lhs_ty != ty {
        return Err(VerifyError::ResultTypeMismatch { inst: inst_id, result: ty, operand: lhs_ty });
    }
    if !is_numeric_ty(&lhs_ty) {
        return Err(VerifyError::NonNumericArith { inst: inst_id, ty: lhs_ty });
    }
    Ok(())
}

fn verify_value_inst(func: &VirFunction, inst_id: InstId, inst: &ValueInst) -> (r: Result<
    (),
    VerifyError,
>)
    ensures
        r == as_result(value_inst_check(func@, inst_id, *inst)),
{
    match &inst.kind {
        ValueInstKind::Const { value } => {
            let actual_ty = value.ty();
            if actual_ty != inst.ty {
                return Err(
                    VerifyError::ConstTypeMismatch {
                        inst: inst_id,
                        const_ty: actual_ty,
                        result_ty: inst.ty,
                    },
                );
            }
            Ok(())
        },
        ValueInstKind::Add { lhs, rhs } => verify_arith(func, inst_id, *lhs, *rhs, inst.ty),
        ValueInstKind::Sub { lhs, rhs } => verify_arith(func, inst_id, *lhs, *rhs, inst.ty),
        ValueInstKind::Mul { lhs, rhs } => verify_arith(func, inst_id, *lhs, *rhs, inst.ty),
        ValueInstKind::Div { lhs, rhs } => verify_arith(func, inst_id, *lhs, *rhs, inst.ty),
        ValueInstKind::Neg { value } => {
            let value_ty = value_ty_checked(func, *value)?;
            if value_ty != inst.ty {
                return Err(
                    VerifyError::NegTypeMismatch { inst: inst_id, result: inst.ty, operand: value_ty },
                );
            }
            if !is_numeric_ty(&value_ty) {
                return Err(VerifyError::NonNumericNeg { inst: inst_id, ty: value_ty });
            }
            Ok(())
        },
    }
}

fn verify_effect_inst(func: &VirFunction, inst_id: InstId, inst: &EffectInst) -> (r: Result<
    (),
    VerifyError,
>)
    requires
        params_exist(func@),
    ensures
        r == as_result(effect_inst_check(func@, inst_id, inst@)),
{
    match inst {
        EffectInst::Print { value } => {
            let _ = value_ty_checked(func, *value)?;
            Ok(())
        },
        EffectInst::Return { value } => match (func.sig.ret_ty, value) {
            (None, None) => Ok(()),
            (None, Some(v)) => {
                let ty = value_ty_checked(func, *v)?;
                Err(VerifyError::ReturnValueInVoid { inst: inst_id, ty })
            },
            (Some(ret_ty), None) => Err(VerifyError::MissingReturnValue { inst: inst_id, ret_ty }),
            (Some(ret_ty), Some(v)) => {
                let value_ty = value_ty_checked(func, *v)?;
                if value_ty != ret_ty {
                    return Err(
                        VerifyError::ReturnTypeMismatch { inst: inst_id, value_ty, ret_ty },
                    );
                }
                Ok(())
            },
        },
        EffectInst::Branch { cond, then_block, then_args, else_block, else_args } => {
            let cond_ty = value_ty_checked(func, *cond)?;
            if cond_ty != TypeKind::Bool {
                return Err(VerifyError::NonBoolBranch { inst: inst_id, ty: cond_ty });
            }
            verify_jump_args(func, inst_id, *then_block, then_args)?;
            verify_jump_args(func, inst_id, *else_block, else_args)?;
            Ok(())
        },
        EffectInst::Jump { target, args } => verify_jump_args(func, inst_id, *target, args),
    }
}

fn verify_insts(func: &VirFunction) -> (r: Result<(), VerifyError>)
    requires
        params_exist(func@),
    ensures
        r == as_result(insts_scan(func@, 0)),
{
    let ghost f = func@;
    let mut i: usize = 0;
    while i < func.insts.len()
        invariant
            f == func@,
            params_exist(f),
            i <= func.insts.len(),
            insts_scan(f, i as int) == insts_scan(f, 0),
        decreases func.insts.len() - i,
    {
        let inst_id = InstId(#[verifier::truncate] (i as u32));
        match &func.insts[i] {
            Inst::Value(value_inst) => {
                verify_value_inst(func, inst_id, value_inst)?;
            },
            Inst::Effect(effect_inst) => {
                verify_effect_inst(func, inst_id, effect_inst)?;
            },
        }
        i = i + 1;
    }
    Ok(())
}

/// Checks that `func` is well-formed VIR; the first fault, in the order of
/// `verify_function_spec`.
pub fn check_function(func: &VirFunction) -> (r: Result<(), VerifyError>)
    ensures
        r == verify_function_spec(func@),
{
    let entry_idx = func.entry.0 as usize;
    if entry_idx >= func.blocks.len() {
        return Err(VerifyError::EntryMissing { entry: func.entry, num_blocks: func.blocks.len() });
    }
    verify_block_params(func)?;
    proof {
        lemma_params_scan_exist(func@, 0, 0);
    }
    verify_block_structure(func)?;
    verify_insts(func)?;
    Ok(())
}

/// The first function, from index `i` on, that is not well-formed, with its fault.
pub open spec fn verify_vir_scan(fs: Seq<FuncV>, i: int) -> Result<(), (usize, VerifyError)>
    decreases fs.len() - i,
{
    if i < 0 || i >= fs.len() {
        Ok(())
    } else {
        match verify_function_spec(fs[i]) {
            Err(e) => Err((i as usize, e)),
            Ok(()) => verify_vir_scan(fs, i + 1),
        }
    }
}

/// The views of a sequence of functions.
pub open spec fn funcs_view(fs: Seq<VirFunction>) -> Seq<FuncV> {
    fs.map_values(|f: VirFunction| f@)
}

/// Checks every function of `vir`; the index of the first one that is not
/// well-formed, with its fault.
pub fn check_vir(vir: &Vir) -> (r: Result<(), (usize, VerifyError)>)
    ensures
        r == verify_vir_scan(funcs_view(vir.functions@), 0),
{
    let ghost fs = funcs_view(vir.functions@);
    let mut i: usize = 0;
    while i < vir.functions.len()
        invariant
            fs == funcs_view(vir.functions@),
            i <= vir.functions.len(),
            verify_vir_scan(fs, i as int) == verify_vir_scan(fs, 0),
        decreases vir.functions.len() - i,
    {
        if let Err(e) = check_function(&vir.functions[i]) {
            return Err((i, e));
        }
        i = i + 1;
    }
    Ok(())
}

/// Checks that `func` is well-formed VIR; the text of the first fault.
pub fn verify_function(func: &VirFunction) -> (r: Result<(), String>)
    ensures
        match verify_function_spec(func@) {
            Ok(()) => r is Ok,
            Err(e) => r matches Err(m) && m@ == verify_error_text(e),
        },
{
    match check_function(func) {
        Ok(()) => Ok(()),
        Err(e) => Err(e.message()),
    }
}

/// The text that reports fault `e` of function number `idx`, named `name`.
pub open spec fn vir_failure_text(idx: usize, name: Seq<char>, e: VerifyError) -> Seq<char> {
    "VIR verification failed for function #"@ + nat_decimal(idx as nat) + " ('"@ + name + "'): "@
        + verify_error_text(e)
}

/// Checks every function of `vir`; the text that reports the first one that is
/// not well-formed, with its number, name and fault.
pub fn verify_vir(vir: &Vir) -> (r: Result<(), String>)
    ensures
        match verify_vir_scan(funcs_view(vir.functions@), 0) {
            Ok(()) => r is Ok,
            Err((idx, e)) => idx < vir.functions@.len() && (r matches Err(m) && m@ == vir_failure_text(
                idx,
                vir.functions@[idx as int].name@,
                e,
            )),
        },
{
    match check_vir(vir) {
        Ok(()) => Ok(()),
        Err((idx, e)) => {
            let ghost len = vir.functions.len();
            proof {
                assert(funcs_view(vir.functions@).len() == len);
                lemma_vir_scan_index(funcs_view(vir.functions@), 0);
            }
            let mut s = String::from_str("VIR verification failed for function #");
            push_decimal(&mut s, idx as u128);
            s.append(" ('");
            s.append(vir.functions[idx].name.as_str());
            s.append("'): ");
            let m = e.message();
            s.append(m.as_str());
            Err(s)
        },
    }
}

proof fn lemma_vir_scan_index(fs: Seq<FuncV>, i: int)
    requires
        0 <= i,
        fs.len() <= usize::MAX,
    ensures
        verify_vir_scan(fs, i) matches Err((idx, _)) ==> i <= idx < fs.len(),
    decreases fs.len() - i,
{
    if i < fs.len() {
        lemma_vir_scan_index(fs, i + 1);
    }
}

} // verus!
