use velocity::grammar::TypeKind;
use velocity::verify::verify_function;
use velocity::vir::{
    is_numeric_ty, is_terminator, BlockId, Constant, EffectInst, Inst, InstId, ValueId,
    ValueInst, ValueInstKind, VirFunction,
};

#[test]
fn new_function_has_one_empty_entry_block() {
    let f = VirFunction::new(String::from("main"));
    assert_eq!(f.name, "main");
    assert_eq!(f.blocks.len(), 1);
    assert!(f.blocks[0].insts.is_empty());
    assert_eq!(f.entry, BlockId(0));
    assert!(f.insts.is_empty());
    assert!(f.block_params.is_empty());
    assert_eq!(f.sig.ret_ty, None);
}

#[test]
fn new_block_ids_count_up() {
    let mut f = VirFunction::new(String::from("f"));
    assert_eq!(f.new_block(), BlockId(1));
    assert_eq!(f.new_block(), BlockId(2));
    assert_eq!(f.blocks.len(), 3);
}

#[test]
fn emitted_values_have_their_types() {
    let mut f = VirFunction::new(String::from("f"));
    let a = f.emit_const(BlockId(0), Constant::I16(4));
    let b = f.emit_const(BlockId(0), Constant::I16(5));
    assert_eq!(a, ValueId::Inst(InstId(0)));
    assert_eq!(b, ValueId::Inst(InstId(1)));
    let sum = f.emit_add(BlockId(0), a, b, TypeKind::I16);
    let diff = f.emit_sub(BlockId(0), sum, b, TypeKind::I16);
    let neg = f.emit_neg(BlockId(0), diff, TypeKind::I16);
    assert_eq!(neg, ValueId::Inst(InstId(4)));
    assert_eq!(*f.value_ty(a), TypeKind::I16);
    assert_eq!(*f.value_ty(neg), TypeKind::I16);
    let s = f.emit_const(BlockId(0), Constant::String(String::from("x")));
    assert_eq!(*f.value_ty(s), TypeKind::String);
    let p = f.emit_print(BlockId(0), neg);
    assert_eq!(p, InstId(6));
    assert_eq!(
        f.blocks[0].insts,
        vec![InstId(0), InstId(1), InstId(2), InstId(3), InstId(4), InstId(5), InstId(6)]
    );
    match &f.insts[2] {
        Inst::Value(ValueInst { kind: ValueInstKind::Add { lhs, rhs }, ty }) => {
            assert_eq!((*lhs, *rhs, *ty), (a, b, TypeKind::I16));
        },
        other => panic!("unexpected {:?}", other),
    }
}

#[test]
fn append_inst_places_in_the_given_block() {
    let mut f = VirFunction::new(String::from("f"));
    let b1 = f.new_block();
    let id = f.append_inst(b1, Inst::Effect(EffectInst::Return { value: None }));
    assert_eq!(id, InstId(0));
    assert!(f.blocks[0].insts.is_empty());
    assert_eq!(f.blocks[1].insts, vec![InstId(0)]);
}

#[test]
fn ensure_final_return_adds_one_return() {
    let mut f = VirFunction::new(String::from("f"));
    let v = f.emit_const(BlockId(0), Constant::Bool(true));
    f.emit_print(BlockId(0), v);
    f.ensure_final_return();
    assert_eq!(f.insts.len(), 3);
    assert!(matches!(f.insts[2], Inst::Effect(EffectInst::Return { value: None })));
    assert_eq!(f.blocks[0].insts, vec![InstId(0), InstId(1), InstId(2)]);
    f.ensure_final_return();
    assert_eq!(f.insts.len(), 3);
    assert!(verify_function(&f).is_ok());
}

#[test]
fn ensure_final_return_goes_to_the_last_block() {
    let mut f = VirFunction::new(String::from("f"));
    f.new_block();
    f.ensure_final_return();
    assert!(f.blocks[0].insts.is_empty());
    assert_eq!(f.blocks[1].insts, vec![InstId(0)]);
}

#[test]
fn ensure_final_return_keeps_a_jump() {
    let mut f = VirFunction::new(String::from("f"));
    f.append_inst(BlockId(0), Inst::Effect(EffectInst::Jump { target: BlockId(0), args: vec![] }));
    f.ensure_final_return();
    assert_eq!(f.insts.len(), 1);
}

#[test]
fn constant_types() {
    assert_eq!(Constant::I8(0).ty(), TypeKind::I8);
    assert_eq!(Constant::U64(0).ty(), TypeKind::U64);
    assert_eq!(Constant::F32(String::from("1.0")).ty(), TypeKind::F32);
    assert_eq!(Constant::F64(String::from("1.0")).ty(), TypeKind::F64);
    assert_eq!(Constant::Bool(true).ty(), TypeKind::Bool);
    assert_eq!(Constant::String(String::new()).ty(), TypeKind::String);
}

#[test]
fn terminators() {
    assert!(is_terminator(&Inst::Effect(EffectInst::Return { value: None })));
    assert!(is_terminator(&Inst::Effect(EffectInst::Jump { target: BlockId(0), args: vec![] })));
    assert!(is_terminator(&Inst::Effect(EffectInst::Branch {
        cond: ValueId::Inst(InstId(0)),
        then_block: BlockId(0),
        then_args: vec![],
        else_block: BlockId(0),
        else_args: vec![],
    })));
    assert!(!is_terminator(&Inst::Effect(EffectInst::Print { value: ValueId::Inst(InstId(0)) })));
    assert!(!is_terminator(&Inst::Value(ValueInst {
        kind: ValueInstKind::Const { value: Constant::Bool(true) },
        ty: TypeKind::Bool,
    })));
}

#[test]
fn numeric_types() {
    for t in [
        TypeKind::I8,
        TypeKind::I16,
        TypeKind::I32,
        TypeKind::I64,
        TypeKind::U8,
        TypeKind::U16,
        TypeKind::U32,
        TypeKind::U64,
        TypeKind::F32,
        TypeKind::F64,
    ] {
        assert!(is_numeric_ty(&t));
    }
    assert!(!is_numeric_ty(&TypeKind::Bool));
    assert!(!is_numeric_ty(&TypeKind::String));
    assert!(!is_numeric_ty(&TypeKind::Unit));
}
