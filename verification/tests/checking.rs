use velocity::grammar::TypeKind;
use velocity::verify::{check_function, check_vir, verify_function, verify_vir, VerifyError};
use velocity::vir::{
    Block, BlockId, BlockParamData, Constant, EffectInst, FunctionSig, Inst, InstId, ParamId,
    ValueId, ValueInst, ValueInstKind, Vir, VirFunction,
};

fn konst(c: Constant, ty: TypeKind) -> Inst {
    Inst::Value(ValueInst { kind: ValueInstKind::Const { value: c }, ty })
}

fn val(kind: ValueInstKind, ty: TypeKind) -> Inst {
    Inst::Value(ValueInst { kind, ty })
}

fn ret(value: Option<ValueId>) -> Inst {
    Inst::Effect(EffectInst::Return { value })
}

fn vi(i: u32) -> ValueId {
    ValueId::Inst(InstId(i))
}

/// A function with these instructions, placed in blocks by index.
fn func(insts: Vec<Inst>, blocks: Vec<Vec<u32>>) -> VirFunction {
    VirFunction {
        block_params: vec![],
        blocks: blocks
            .into_iter()
            .map(|b| Block { insts: b.into_iter().map(InstId).collect(), params: vec![] })
            .collect(),
        entry: BlockId(0),
        insts,
        name: String::from("f"),
        sig: FunctionSig { param_tys: vec![], ret_ty: None },
    }
}

fn err(f: &VirFunction) -> VerifyError {
    check_function(f).unwrap_err()
}

#[test]
fn a_well_formed_function_passes() {
    let f = func(
        vec![konst(Constant::I64(1), TypeKind::I64), Inst::Effect(EffectInst::Print { value: vi(0) }), ret(None)],
        vec![vec![0, 1, 2]],
    );
    assert_eq!(check_function(&f), Ok(()));
}

#[test]
fn entry_block_must_exist() {
    let f = func(vec![], vec![]);
    assert_eq!(err(&f), VerifyError::EntryMissing { entry: BlockId(0), num_blocks: 0 });
}

#[test]
fn block_params_must_exist_and_belong() {
    let mut f = func(vec![ret(None)], vec![vec![0]]);
    f.blocks[0].params.push(ParamId(0));
    assert_eq!(err(&f), VerifyError::InvalidParam { block: BlockId(0), param: ParamId(0) });
    f.block_params.push(BlockParamData { block: BlockId(1), ty: TypeKind::I8 });
    assert_eq!(
        err(&f),
        VerifyError::ParamOwnerMismatch { block: BlockId(0), param: ParamId(0), owner: BlockId(1) }
    );
    f.block_params[0].block = BlockId(0);
    assert_eq!(check_function(&f), Ok(()));
}

#[test]
fn blocks_must_not_be_empty() {
    let f = VirFunction::new(String::from("f"));
    assert_eq!(err(&f), VerifyError::EmptyBlock { block: BlockId(0) });
}

#[test]
fn placed_instructions_must_exist() {
    let f = func(vec![ret(None)], vec![vec![5]]);
    assert_eq!(err(&f), VerifyError::InvalidInst { block: BlockId(0), inst: InstId(5) });
}

#[test]
fn nothing_follows_a_terminator() {
    let f = func(
        vec![ret(None), Inst::Effect(EffectInst::Print { value: vi(0) })],
        vec![vec![0, 1]],
    );
    assert_eq!(err(&f), VerifyError::InstAfterTerminator { block: BlockId(0), inst: InstId(1) });
}

#[test]
fn an_instruction_is_placed_once() {
    let f = func(vec![ret(None)], vec![vec![0], vec![0]]);
    assert_eq!(
        err(&f),
        VerifyError::InstInTwoBlocks { inst: InstId(0), first: BlockId(0), second: BlockId(1) }
    );
}

#[test]
fn blocks_end_in_a_terminator() {
    let f = func(vec![konst(Constant::I64(1), TypeKind::I64)], vec![vec![0]]);
    assert_eq!(err(&f), VerifyError::MissingTerminator { block: BlockId(0) });
}

#[test]
fn every_instruction_is_placed() {
    let f = func(vec![ret(None), konst(Constant::I64(1), TypeKind::I64)], vec![vec![0]]);
    assert_eq!(err(&f), VerifyError::UnplacedInst { index: 1 });
}

#[test]
fn constants_have_their_own_type() {
    let f = func(vec![konst(Constant::I8(1), TypeKind::I64), ret(None)], vec![vec![0, 1]]);
    assert_eq!(
        err(&f),
        VerifyError::ConstTypeMismatch {
            inst: InstId(0),
            const_ty: TypeKind::I8,
            result_ty: TypeKind::I64
        }
    );
}

#[test]
fn arithmetic_checks() {
    let base = || {
        vec![konst(Constant::I8(1), TypeKind::I8), konst(Constant::I16(2), TypeKind::I16)]
    };
    let mut insts = base();
    insts.push(val(ValueInstKind::Add { lhs: vi(0), rhs: vi(1) }, TypeKind::I8));
    insts.push(ret(None));
    assert_eq!(
        err(&func(insts, vec![vec![0, 1, 2, 3]])),
        VerifyError::OperandTypeMismatch { inst: InstId(2), lhs: TypeKind::I8, rhs: TypeKind::I16 }
    );
    let mut insts = base();
    insts.push(val(ValueInstKind::Mul { lhs: vi(0), rhs: vi(0) }, TypeKind::I16));
    insts.push(ret(None));
    assert_eq!(
        err(&func(insts, vec![vec![0, 1, 2, 3]])),
        VerifyError::ResultTypeMismatch { inst: InstId(2), result: TypeKind::I16, operand: TypeKind::I8 }
    );
    let insts = vec![
        konst(Constant::Bool(true), TypeKind::Bool),
        val(ValueInstKind::Sub { lhs: vi(0), rhs: vi(0) }, TypeKind::Bool),
        ret(None),
    ];
    assert_eq!(
        err(&func(insts, vec![vec![0, 1, 2]])),
        VerifyError::NonNumericArith { inst: InstId(1), ty: TypeKind::Bool }
    );
    let mut insts = base();
    insts.push(val(ValueInstKind::Div { lhs: vi(1), rhs: vi(1) }, TypeKind::I16));
    insts.push(ret(None));
    assert_eq!(check_function(&func(insts, vec![vec![0, 1, 2, 3]])), Ok(()));
}

#[test]
fn negation_checks() {
    let insts = vec![
        konst(Constant::I8(1), TypeKind::I8),
        val(ValueInstKind::Neg { value: vi(0) }, TypeKind::I16),
        ret(None),
    ];
    assert_eq!(
        err(&func(insts, vec![vec![0, 1, 2]])),
        VerifyError::NegTypeMismatch { inst: InstId(1), result: TypeKind::I16, operand: TypeKind::I8 }
    );
    let insts = vec![
        konst(Constant::String(String::from("s")), TypeKind::String),
        val(ValueInstKind::Neg { value: vi(0) }, TypeKind::String),
        ret(None),
    ];
    assert_eq!(
        err(&func(insts, vec![vec![0, 1, 2]])),
        VerifyError::NonNumericNeg { inst: InstId(1), ty: TypeKind::String }
    );
}

#[test]
fn return_checks() {
    let insts = vec![konst(Constant::Bool(true), TypeKind::Bool), ret(Some(vi(0)))];
    assert_eq!(
        err(&func(insts, vec![vec![0, 1]])),
        VerifyError::ReturnValueInVoid { inst: InstId(1), ty: TypeKind::Bool }
    );
    let mut f = func(vec![ret(None)], vec![vec![0]]);
    f.sig.ret_ty = Some(TypeKind::I64);
    assert_eq!(
        err(&f),
        VerifyError::MissingReturnValue { inst: InstId(0), ret_ty: TypeKind::I64 }
    );
    let mut f = func(
        vec![konst(Constant::Bool(true), TypeKind::Bool), ret(Some(vi(0)))],
        vec![vec![0, 1]],
    );
    f.sig.ret_ty = Some(TypeKind::I64);
    assert_eq!(
        err(&f),
        VerifyError::ReturnTypeMismatch { inst: InstId(1), value_ty: TypeKind::Bool, ret_ty: TypeKind::I64 }
    );
    f.sig.ret_ty = Some(TypeKind::Bool);
    assert_eq!(check_function(&f), Ok(()));
}

#[test]
fn branch_and_jump_checks() {
    let branch = |cond: ValueId, then_block: u32| {
        Inst::Effect(EffectInst::Branch {
            cond,
            then_block: BlockId(then_block),
            then_args: vec![],
            else_block: BlockId(1),
            else_args: vec![],
        })
    };
    let f = func(
        vec![konst(Constant::I64(1), TypeKind::I64), branch(vi(0), 1), ret(None)],
        vec![vec![0, 1], vec![2]],
    );
    assert_eq!(err(&f), VerifyError::NonBoolBranch { inst: InstId(1), ty: TypeKind::I64 });
    let f = func(
        vec![konst(Constant::Bool(true), TypeKind::Bool), branch(vi(0), 7), ret(None)],
        vec![vec![0, 1], vec![2]],
    );
    assert_eq!(err(&f), VerifyError::InvalidJumpTarget { inst: InstId(1), target: BlockId(7) });
    let f = func(
        vec![konst(Constant::Bool(true), TypeKind::Bool), branch(vi(0), 1), ret(None)],
        vec![vec![0, 1], vec![2]],
    );
    assert_eq!(check_function(&f), Ok(()));
    let jump = |args: Vec<ValueId>| Inst::Effect(EffectInst::Jump { target: BlockId(1), args });
    let f = func(
        vec![konst(Constant::Bool(true), TypeKind::Bool), jump(vec![vi(0)]), ret(None)],
        vec![vec![0, 1], vec![2]],
    );
    assert_eq!(
        err(&f),
        VerifyError::JumpArgCount { inst: InstId(1), target: BlockId(1), passed: 1, expected: 0 }
    );
    let mut f = func(
        vec![konst(Constant::Bool(true), TypeKind::Bool), jump(vec![vi(0)]), ret(None)],
        vec![vec![0, 1], vec![2]],
    );
    f.block_params.push(BlockParamData { block: BlockId(1), ty: TypeKind::U8 });
    f.blocks[1].params.push(ParamId(0));
    assert_eq!(
        err(&f),
        VerifyError::JumpArgType {
            inst: InstId(1),
            target: BlockId(1),
            arg_ty: TypeKind::Bool,
            param: ParamId(0),
            param_ty: TypeKind::U8
        }
    );
    f.block_params[0].ty = TypeKind::Bool;
    assert_eq!(check_function(&f), Ok(()));
}

#[test]
fn values_must_name_values() {
    let print = |v: ValueId| Inst::Effect(EffectInst::Print { value: v });
    let f = func(vec![print(vi(9)), ret(None)], vec![vec![0, 1]]);
    assert_eq!(err(&f), VerifyError::ValueOutOfRange { inst: 9 });
    let f = func(vec![print(vi(0)), ret(None)], vec![vec![0, 1]]);
    assert_eq!(err(&f), VerifyError::ValueIsEffect { inst: 0 });
    let f = func(vec![print(ValueId::Param(ParamId(3))), ret(None)], vec![vec![0, 1]]);
    assert_eq!(err(&f), VerifyError::ParamOutOfRange { param: 3 });
}

#[test]
fn the_first_fault_is_reported() {
    // An empty block comes before the bad constant in check order.
    let f = func(vec![konst(Constant::I8(1), TypeKind::I64), ret(None)], vec![vec![0, 1], vec![]]);
    assert_eq!(err(&f), VerifyError::EmptyBlock { block: BlockId(1) });
}

#[test]
fn verify_vir_names_the_failing_function() {
    let good = func(vec![ret(None)], vec![vec![0]]);
    let bad = VirFunction::new(String::from("g"));
    let vir = Vir { functions: vec![good, bad] };
    assert_eq!(check_vir(&vir), Err((1, VerifyError::EmptyBlock { block: BlockId(0) })));
    let ok = Vir { functions: vec![func(vec![ret(None)], vec![vec![0]])] };
    assert_eq!(check_vir(&ok), Ok(()));
    assert_eq!(check_vir(&Vir { functions: vec![] }), Ok(()));
}

#[test]
fn verify_function_reports_the_fault_as_text() {
    let f = func(vec![ret(None)], vec![vec![0], vec![0]]);
    assert_eq!(
        verify_function(&f),
        Err(String::from("instruction InstId(0) appears in multiple blocks: BlockId(0) and BlockId(1)"))
    );
    assert_eq!(verify_function(&func(vec![ret(None)], vec![vec![0]])), Ok(()));
}

#[test]
fn verify_vir_names_the_failing_function_in_its_text() {
    let good = func(vec![ret(None)], vec![vec![0]]);
    let bad = VirFunction::new(String::from("g"));
    let vir = Vir { functions: vec![good, bad] };
    assert_eq!(
        verify_vir(&vir),
        Err(String::from("VIR verification failed for function #1 ('g'): block BlockId(0) is empty"))
    );
}

#[test]
fn fault_texts() {
    let cases: Vec<(VerifyError, &str)> = vec![
        (
            VerifyError::EntryMissing { entry: BlockId(2), num_blocks: 0 },
            "entry block BlockId(2) does not exist (blocks.len() = 0)",
        ),
        (
            VerifyError::ParamOwnerMismatch { block: BlockId(0), param: ParamId(1), owner: BlockId(3) },
            "block BlockId(0) contains ParamId(1), but that param belongs to block BlockId(3)",
        ),
        (
            VerifyError::ConstTypeMismatch { inst: InstId(4), const_ty: TypeKind::I8, result_ty: TypeKind::U64 },
            "instruction InstId(4) is const I8 but has result type U64",
        ),
        (
            VerifyError::JumpArgCount { inst: InstId(1), target: BlockId(1), passed: 1, expected: 0 },
            "instruction InstId(1) jumps to block BlockId(1) passing 1 args, but block expects 0",
        ),
        (
            VerifyError::JumpArgType {
                inst: InstId(7),
                target: BlockId(3),
                arg_ty: TypeKind::I32,
                param: ParamId(0),
                param_ty: TypeKind::I64,
            },
            "instruction InstId(7) jump to BlockId(3) passes arg of type I32 to param ParamId(0) of type I64",
        ),
        (
            VerifyError::ValueIsEffect { inst: 12 },
            "ValueId::Inst(12) refers to an effect instruction, not a value-producing instruction",
        ),
        (VerifyError::UnplacedInst { index: 30 }, "instruction InstId(30) is not placed in any block"),
        (
            VerifyError::ReturnTypeMismatch { inst: InstId(1), value_ty: TypeKind::Bool, ret_ty: TypeKind::String },
            "instruction InstId(1) returns value of type Bool, but function expects String",
        ),
    ];
    for (e, text) in cases {
        assert_eq!(e.message(), text);
    }
}
