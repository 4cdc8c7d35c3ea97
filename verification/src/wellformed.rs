use vstd::prelude::*;

use crate::verify::{
    VerifyError, checked_ty, jump_args_scan, jump_check, effect_inst_check, first_unplaced, insts_scan, no_owners, params_scan,
    structure_check, structure_scan, value_inst_check, verify_function_spec,
};
use crate::vir::{BlockId, EffectV, FuncV, InstId, InstV, ValueId, ValueInst, ValueInstKind, constant_ty, terminator};
use crate::grammar::{TypeKind, numeric_type};

verus! {

/// Every parameter that a block lists exists and belongs to that block.
pub open spec fn params_wf(f: FuncV) -> bool {
    forall|b: int, k: int|
        0 <= b < f.blocks.len() && 0 <= k < f.blocks[b].params.len() ==> {
            let p = #[trigger] f.blocks[b].params[k];
            p.0 < f.block_params.len() && f.block_params[p.0 as int].block == BlockId(b as u32)
        }
}

/// `(b, k)` is a position in the instruction list of a block.
pub open spec fn pos_ok(f: FuncV, b: int, k: int) -> bool {
    0 <= b < f.blocks.len() && 0 <= k < f.blocks[b].insts.len()
}

/// The index of the instruction at position `(b, k)`.
pub open spec fn at(f: FuncV, b: int, k: int) -> int {
    f.blocks[b].insts[k].0 as int
}

/// Some position of some block holds instruction `i`.
pub open spec fn placed(f: FuncV, i: int) -> bool {
    exists|b: int, k: int| pos_ok(f, b, k) && #[trigger] at(f, b, k) == i
}

/// Block `b` is not empty, ends in a terminator, and has none before its end.
pub open spec fn block_ok(f: FuncV, b: int) -> bool {
    let n = f.blocks[b].insts.len();
    &&& n > 0
    &&& forall|k: int| 0 <= k < n - 1 ==> !terminator(f.insts[#[trigger] at(f, b, k)])
    &&& terminator(f.insts[at(f, b, n - 1)])
}

/// How blocks place instructions: every block is non-empty and ends in its only
/// terminator, and every instruction is placed exactly once.
pub open spec fn placement_wf(f: FuncV) -> bool {
    &&& forall|b: int| 0 <= b < f.blocks.len() ==> #[trigger] block_ok(f, b)
    &&& forall|b: int, k: int| pos_ok(f, b, k) ==> 0 <= #[trigger] at(f, b, k) < f.insts.len()
    &&& forall|b1: int, k1: int, b2: int, k2: int|
        pos_ok(f, b1, k1) && pos_ok(f, b2, k2) && #[trigger] at(f, b1, k1) == #[trigger] at(
            f,
            b2,
            k2,
        ) ==> b1 == b2 && k1 == k2
    &&& forall|i: int| 0 <= i < f.insts.len() ==> #[trigger] placed(f, i)
}

/// The check of instruction `i` alone.
pub open spec fn inst_check(f: FuncV, i: int) -> Option<VerifyError> {
    let id = InstId(i as u32);
    match f.insts[i] {
        InstV::Value(vi) => value_inst_check(f, id, vi),
        InstV::Effect(e) => effect_inst_check(f, id, e),
    }
}

/// A well-formed function: its entry block exists, its block parameters belong
/// to their blocks, its instructions are placed as `placement_wf` says, and each
/// instruction passes its own check.
pub open spec fn function_wf(f: FuncV) -> bool {
    &&& f.entry.0 < f.blocks.len()
    &&& params_wf(f)
    &&& placement_wf(f)
    &&& forall|i: int| 0 <= i < f.insts.len() ==> #[trigger] inst_check(f, i) is None
}

proof fn lemma_params_scan(f: FuncV, b: int, k: int)
    requires
        0 <= b,
        0 <= k,
    ensures
        params_scan(f, b, k) is None <==> forall|b2: int, k2: int|
            b <= b2 < f.blocks.len() && 0 <= k2 < f.blocks[b2].params.len() && (b2 > b || k2 >= k)
                ==> {
                let p = #[trigger] f.blocks[b2].params[k2];
                p.0 < f.block_params.len() && f.block_params[p.0 as int].block == BlockId(b2 as u32)
            },
    decreases f.blocks.len() - b, f.blocks[b].params.len() - k,
{
    if b < f.blocks.len() {
        if k >= f.blocks[b].params.len() {
            lemma_params_scan(f, b + 1, 0);
        } else {
            lemma_params_scan(f, b, k + 1);
        }
    }
}

proof fn lemma_insts_scan(f: FuncV, i: int)
    requires
        0 <= i,
    ensures
        insts_scan(f, i) is None <==> forall|j: int| i <= j < f.insts.len() ==> #[trigger] inst_check(f, j) is None,
    decreases f.insts.len() - i,
{
    if i < f.insts.len() {
        lemma_insts_scan(f, i + 1);
        assert(inst_check(f, i) == match f.insts[i] {
            InstV::Value(vi) => value_inst_check(f, InstId(i as u32), vi),
            InstV::Effect(e) => effect_inst_check(f, InstId(i as u32), e),
        });
    }
}

proof fn lemma_first_unplaced(o: Seq<Option<BlockId>>, i: int)
    requires
        0 <= i,
    ensures
        first_unplaced(o, i) is None <==> forall|j: int| i <= j < o.len() ==> (#[trigger] o[j]) is Some,
    decreases o.len() - i,
{
    if i < o.len() {
        lemma_first_unplaced(o, i + 1);
    }
}

/// Position `(b1, k1)` comes before `(b, k)`.
pub open spec fn before(b1: int, k1: int, b: int, k: int) -> bool {
    b1 < b || (b1 == b && k1 < k)
}

/// What holds while the placement is scanned at position `(b, k)`.
pub open spec fn scan_inv(f: FuncV, b: int, k: int, owner: Seq<Option<BlockId>>, saw: bool) -> bool {
    &&& 0 <= b <= f.blocks.len()
    &&& b < f.blocks.len() ==> 0 <= k <= f.blocks[b].insts.len()
    &&& b == f.blocks.len() ==> k == 0
    &&& owner.len() == f.insts.len()
    &&& forall|b1: int, k1: int|
        pos_ok(f, b1, k1) && before(b1, k1, b, k) ==> 0 <= #[trigger] at(f, b1, k1) < f.insts.len()
            && owner[at(f, b1, k1)] is Some
    &&& forall|i: int|
        0 <= i < owner.len() && (#[trigger] owner[i]) is Some ==> exists|b1: int, k1: int|
            pos_ok(f, b1, k1) && before(b1, k1, b, k) && #[trigger] at(f, b1, k1) == i
    &&& forall|b1: int, k1: int, b2: int, k2: int|
        pos_ok(f, b1, k1) && pos_ok(f, b2, k2) && before(b1, k1, b, k) && before(b2, k2, b, k)
            && #[trigger] at(f, b1, k1) == #[trigger] at(f, b2, k2) ==> b1 == b2 && k1 == k2
    &&& forall|b1: int| 0 <= b1 < b ==> #[trigger] block_ok(f, b1)
    &&& b < f.blocks.len() ==> forall|k1: int|
        0 <= k1 < k - 1 ==> !terminator(f.insts[#[trigger] at(f, b, k1)])
    &&& saw == (b < f.blocks.len() && k > 0 && terminator(f.insts[at(f, b, k - 1)]))
}

proof fn lemma_structure_scan(f: FuncV, b: int, k: int, owner: Seq<Option<BlockId>>, saw: bool)
    requires
        scan_inv(f, b, k, owner, saw),
    ensures
        (structure_scan(f, b, k, owner, saw) matches Ok(o) && forall|i: int|
            0 <= i < o.len() ==> (#[trigger] o[i]) is Some) <==> placement_wf(f),
    decreases f.blocks.len() - b, f.blocks[b].insts.len() - k,
{
    if b == f.blocks.len() {
        assert(structure_scan(f, b, k, owner, saw) == Ok::<Seq<Option<BlockId>>, VerifyError>(owner));
        if forall|i: int| 0 <= i < owner.len() ==> (#[trigger] owner[i]) is Some {
            assert forall|i: int| 0 <= i < f.insts.len() implies #[trigger] placed(f, i) by {
                assert(owner[i] is Some);
            }
        }
        if placement_wf(f) {
            assert forall|i: int| 0 <= i < owner.len() implies (#[trigger] owner[i]) is Some by {
                assert(placed(f, i));
                let (b2, k2) = choose|b2: int, k2: int| pos_ok(f, b2, k2) && #[trigger] at(f, b2, k2) == i;
                assert(before(b2, k2, b, k));
            }
        }
    } else {
        let ids = f.blocks[b].insts;
        let block = BlockId(b as u32);
        if ids.len() == 0 {
            assert(!block_ok(f, b));
        } else if k >= ids.len() {
            let n = ids.len() as int;
            if !terminator(f.insts[ids.last().0 as int]) {
                assert(at(f, b, n - 1) == ids.last().0 as int);
                assert(!block_ok(f, b));
            } else {
                assert(block_ok(f, b)) by {
                    assert(at(f, b, n - 1) == ids.last().0 as int);
                }
                assert(scan_inv(f, b + 1, 0, owner, false)) by {
                    assert forall|b1: int, k1: int|
                        pos_ok(f, b1, k1) && before(b1, k1, b + 1, 0) implies 0 <= #[trigger] at(
                        f,
                        b1,
                        k1,
                    ) < f.insts.len() && owner[at(f, b1, k1)] is Some by {
                        assert(before(b1, k1, b, k));
                    }
                    assert forall|i: int|
                        0 <= i < owner.len() && (#[trigger] owner[i]) is Some implies exists|
                        b1: int,
                        k1: int,
                    | pos_ok(f, b1, k1) && before(b1, k1, b + 1, 0) && #[trigger] at(f, b1, k1) == i by {
                        let (b1, k1) = choose|b1: int, k1: int|
                            pos_ok(f, b1, k1) && before(b1, k1, b, k) && #[trigger] at(f, b1, k1) == i;
                        assert(before(b1, k1, b + 1, 0));
                    }
                    assert forall|b1: int, k1: int, b2: int, k2: int|
                        pos_ok(f, b1, k1) && pos_ok(f, b2, k2) && before(b1, k1, b + 1, 0) && before(
                            b2,
                            k2,
                            b + 1,
                            0,
                        ) && #[trigger] at(f, b1, k1) == #[trigger] at(f, b2, k2) implies b1 == b2
                        && k1 == k2 by {
                        assert(before(b1, k1, b, k) && before(b2, k2, b, k));
                    }
                    assert forall|b1: int| 0 <= b1 < b + 1 implies #[trigger] block_ok(f, b1) by {
                        if b1 < b {
                        }
                    }
                }
                lemma_structure_scan(f, b + 1, 0, owner, false);
            }
        } else {
            let id = ids[k];
            assert(at(f, b, k) == id.0 as int);
            if id.0 >= f.insts.len() {
                assert(!placement_wf(f)) by {
                    if placement_wf(f) {
                        assert(pos_ok(f, b, k));
                    }
                }
            } else if saw {
                assert(!placement_wf(f)) by {
                    if placement_wf(f) {
                        assert(block_ok(f, b));
                        assert(!terminator(f.insts[at(f, b, k - 1)]));
                    }
                }
            } else if owner[id.0 as int] is Some {
                let (b1, k1) = choose|b1: int, k1: int|
                    pos_ok(f, b1, k1) && before(b1, k1, b, k) && #[trigger] at(f, b1, k1) == id.0 as int;
                assert(!placement_wf(f)) by {
                    if placement_wf(f) {
                        assert(pos_ok(f, b, k));
                        assert(at(f, b1, k1) == at(f, b, k));
                    }
                }
            } else {
                let o2 = owner.update(id.0 as int, Some(block));
                let saw2 = terminator(f.insts[id.0 as int]);
                assert(scan_inv(f, b, k + 1, o2, saw2)) by {
                    assert forall|b1: int, k1: int|
                        pos_ok(f, b1, k1) && before(b1, k1, b, k + 1) implies 0 <= #[trigger] at(
                        f,
                        b1,
                        k1,
                    ) < f.insts.len() && o2[at(f, b1, k1)] is Some by {
                        if before(b1, k1, b, k) {
                        } else {
                            assert(b1 == b && k1 == k);
                        }
                    }
                    assert forall|i: int|
                        0 <= i < o2.len() && (#[trigger] o2[i]) is Some implies exists|
                        b1: int,
                        k1: int,
                    | pos_ok(f, b1, k1) && before(b1, k1, b, k + 1) && #[trigger] at(f, b1, k1) == i by {
                        if i == id.0 as int {
                            assert(pos_ok(f, b, k) && before(b, k, b, k + 1) && at(f, b, k) == i);
                        } else {
                            assert(owner[i] is Some);
                            let (b1, k1) = choose|b1: int, k1: int|
                                pos_ok(f, b1, k1) && before(b1, k1, b, k) && #[trigger] at(f, b1, k1)
                                    == i;
                            assert(before(b1, k1, b, k + 1));
                        }
                    }
                    assert forall|b1: int, k1: int, b2: int, k2: int|
                        pos_ok(f, b1, k1) && pos_ok(f, b2, k2) && before(b1, k1, b, k + 1) && before(
                            b2,
                            k2,
                            b,
                            k + 1,
                        ) && #[trigger] at(f, b1, k1) == #[trigger] at(f, b2, k2) implies b1 == b2
                        && k1 == k2 by {
                        if before(b1, k1, b, k) && !before(b2, k2, b, k) {
                            assert(b2 == b && k2 == k);
                            assert(owner[at(f, b1, k1)] is Some);
                        } else if !before(b1, k1, b, k) && before(b2, k2, b, k) {
                            assert(b1 == b && k1 == k);
                            assert(owner[at(f, b2, k2)] is Some);
                        }
                    }
                    assert forall|k1: int| 0 <= k1 < k + 1 - 1 implies !terminator(
                        f.insts[#[trigger] at(f, b, k1)],
                    ) by {
                        if k1 < k - 1 {
                        } else {
                            assert(k1 == k - 1);
                        }
                    }
                }
                lemma_structure_scan(f, b, k + 1, o2, saw2);
            }
        }
    }
}

/// A function passes `verify_function` exactly where it is well-formed.
pub proof fn law_verify_function_iff_well_formed(f: FuncV)
    ensures
        verify_function_spec(f) is Ok <==> function_wf(f),
{
    lemma_params_scan(f, 0, 0);
    lemma_insts_scan(f, 0);
    let init = no_owners(f.insts.len());
    assert(scan_inv(f, 0, 0, init, false));
    lemma_structure_scan(f, 0, 0, init, false);
    match structure_scan(f, 0, 0, init, false) {
        Ok(o) => {
            lemma_first_unplaced(o, 0);
        },
        Err(_) => {},
    }
}

/// A value instruction passes its check exactly when: a constant has its own
/// type; an arithmetic instruction has operands that name values of its result
/// type, which is numeric; a negation has an operand of its result type, which
/// is numeric (unsigned types included).
pub proof fn law_value_inst_check(f: FuncV, id: InstId, vi: ValueInst)
    ensures
        value_inst_check(f, id, vi) is None <==> match vi.kind {
            ValueInstKind::Const { value } => constant_ty(value) == vi.ty,
            ValueInstKind::Add { lhs, rhs } | ValueInstKind::Sub { lhs, rhs } | ValueInstKind::Mul {
                lhs,
                rhs,
            } | ValueInstKind::Div { lhs, rhs } => checked_ty(f, lhs) == Ok::<TypeKind, VerifyError>(
                vi.ty,
            ) && checked_ty(f, rhs) == Ok::<TypeKind, VerifyError>(vi.ty) && numeric_type(vi.ty),
            ValueInstKind::Neg { value } => checked_ty(f, value) == Ok::<TypeKind, VerifyError>(vi.ty)
                && numeric_type(vi.ty),
        },
{
}

/// The arguments of a jump pass their check exactly when the target exists,
/// takes as many parameters, and each argument names a value of its
/// parameter's type.
pub proof fn law_jump_check(f: FuncV, id: InstId, target: BlockId, args: Seq<ValueId>)
    ensures
        jump_check(f, id, target, args) is None <==> {
            &&& target.0 < f.blocks.len()
            &&& f.blocks[target.0 as int].params.len() == args.len()
            &&& forall|k: int|
                0 <= k < args.len() ==> checked_ty(f, #[trigger] args[k]) == Ok::<TypeKind, VerifyError>(
                    f.block_params[f.blocks[target.0 as int].params[k].0 as int].ty,
                )
        },
{
    if target.0 < f.blocks.len() && f.blocks[target.0 as int].params.len() == args.len() {
        lemma_jump_args_scan(f, id, target, args, 0);
    }
}

proof fn lemma_jump_args_scan(f: FuncV, id: InstId, target: BlockId, args: Seq<ValueId>, k: int)
    requires
        0 <= k,
        target.0 < f.blocks.len(),
        f.blocks[target.0 as int].params.len() == args.len(),
    ensures
        jump_args_scan(f, id, target, args, k) is None <==> forall|j: int|
            k <= j < args.len() ==> checked_ty(f, #[trigger] args[j]) == Ok::<TypeKind, VerifyError>(
                f.block_params[f.blocks[target.0 as int].params[j].0 as int].ty,
            ),
    decreases args.len() - k,
{
    if k < args.len() {
        lemma_jump_args_scan(f, id, target, args, k + 1);
    }
}

/// An effect instruction passes its check exactly when: a printed value names a
/// value; a return gives a value of the function's return type, or no value
/// where the function returns none; a branch tests a `bool` and both its jumps
/// pass; a jump passes.
pub proof fn law_effect_inst_check(f: FuncV, id: InstId, e: EffectV)
    ensures
        effect_inst_check(f, id, e) is None <==> match e {
            EffectV::Print { value } => checked_ty(f, value) is Ok,
            EffectV::Return { value } => match (f.ret_ty, value) {
                (None, None) => true,
                (Some(r), Some(v)) => checked_ty(f, v) == Ok::<TypeKind, VerifyError>(r),
                _ => false,
            },
            EffectV::Branch { cond, then_block, then_args, else_block, else_args } => checked_ty(
                f,
                cond,
            ) == Ok::<TypeKind, VerifyError>(TypeKind::Bool) && jump_check(f, id, then_block, then_args)
                is None && jump_check(f, id, else_block, else_args) is None,
            EffectV::Jump { target, args } => jump_check(f, id, target, args) is None,
        },
{
}

} // verus!
