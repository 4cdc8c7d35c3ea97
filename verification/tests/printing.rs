use velocity::grammar::TypeKind;
use velocity::ppv::{format_block_args, format_effect_inst, format_inst, format_type, format_value_id};
use velocity::vir::{
    BlockId, Constant, EffectInst, InstId, ParamId, ValueId, ValueInstKind, ValueInst, Inst,
    VirFunction,
};

#[test]
fn type_names() {
    let all = [
        (TypeKind::I8, "i8"),
        (TypeKind::I16, "i16"),
        (TypeKind::I32, "i32"),
        (TypeKind::I64, "i64"),
        (TypeKind::U8, "u8"),
        (TypeKind::U16, "u16"),
        (TypeKind::U32, "u32"),
        (TypeKind::U64, "u64"),
        (TypeKind::Unit, "unit"),
        (TypeKind::F32, "f32"),
        (TypeKind::F64, "f64"),
        (TypeKind::Bool, "bool"),
        (TypeKind::String, "string"),
    ];
    for (t, name) in all {
        assert_eq!(format_type(&t), name);
    }
}

#[test]
fn value_ids() {
    assert_eq!(format_value_id(ValueId::Inst(InstId(0))), "i0");
    assert_eq!(format_value_id(ValueId::Inst(InstId(4294967295))), "i4294967295");
    assert_eq!(format_value_id(ValueId::Param(ParamId(12))), "p12");
}

#[test]
fn block_args() {
    assert_eq!(format_block_args(&[]), "");
    assert_eq!(format_block_args(&[ValueId::Inst(InstId(3))]), "[i3]");
    assert_eq!(
        format_block_args(&[
            ValueId::Inst(InstId(3)),
            ValueId::Param(ParamId(0)),
            ValueId::Inst(InstId(10)),
        ]),
        "[i3, p0, i10]"
    );
}

#[test]
fn effect_instructions() {
    assert_eq!(
        format_effect_inst(&EffectInst::Print { value: ValueId::Param(ParamId(1)) }),
        "print p1"
    );
    assert_eq!(format_effect_inst(&EffectInst::Return { value: None }), "return");
    assert_eq!(
        format_effect_inst(&EffectInst::Return { value: Some(ValueId::Inst(InstId(2))) }),
        "return i2"
    );
    assert_eq!(
        format_effect_inst(&EffectInst::Jump {
            target: BlockId(3),
            args: vec![ValueId::Inst(InstId(6))]
        }),
        "jump b3[i6]"
    );
    assert_eq!(
        format_effect_inst(&EffectInst::Jump { target: BlockId(0), args: vec![] }),
        "jump b0"
    );
    assert_eq!(
        format_effect_inst(&EffectInst::Branch {
            cond: ValueId::Inst(InstId(0)),
            then_block: BlockId(1),
            then_args: vec![],
            else_block: BlockId(2),
            else_args: vec![ValueId::Inst(InstId(0)), ValueId::Param(ParamId(4))],
        }),
        "branch i0, b1, b2[i0, p4]"
    );
}

fn one_inst(kind: ValueInstKind, ty: TypeKind) -> String {
    let mut f = VirFunction::new(String::from("f"));
    let id = f.append_inst(BlockId(0), Inst::Value(ValueInst { kind, ty }));
    format_inst(&f, id)
}

#[test]
fn constants() {
    let c = |value: Constant, ty: TypeKind| one_inst(ValueInstKind::Const { value }, ty);
    assert_eq!(c(Constant::I8(-128), TypeKind::I8), "i0:i8 = const -128");
    assert_eq!(c(Constant::I64(i64::MAX), TypeKind::I64), "i0:i64 = const 9223372036854775807");
    assert_eq!(c(Constant::I64(i64::MIN), TypeKind::I64), "i0:i64 = const -9223372036854775808");
    assert_eq!(c(Constant::U64(u64::MAX), TypeKind::U64), "i0:u64 = const 18446744073709551615");
    assert_eq!(c(Constant::U16(0), TypeKind::U16), "i0:u16 = const 0");
    assert_eq!(c(Constant::I32(-40), TypeKind::I32), "i0:i32 = const -40");
    assert_eq!(c(Constant::U32(7), TypeKind::U32), "i0:u32 = const 7");
    assert_eq!(c(Constant::I16(300), TypeKind::I16), "i0:i16 = const 300");
    assert_eq!(c(Constant::U8(255), TypeKind::U8), "i0:u8 = const 255");
    assert_eq!(c(Constant::Bool(true), TypeKind::Bool), "i0:bool = const true");
    assert_eq!(c(Constant::Bool(false), TypeKind::Bool), "i0:bool = const false");
    assert_eq!(
        c(Constant::String(String::from("say \"hi\"\n")), TypeKind::String),
        "i0:string = const \"say \\\"hi\\\"\\n\""
    );
    assert_eq!(c(Constant::F64(String::from("2.50")), TypeKind::F64), "i0:f64 = const 2.50");
}

#[test]
fn arithmetic_instructions() {
    let a = ValueId::Inst(InstId(1));
    let b = ValueId::Param(ParamId(2));
    assert_eq!(one_inst(ValueInstKind::Add { lhs: a, rhs: b }, TypeKind::I64), "i0:i64 = add i1, p2");
    assert_eq!(one_inst(ValueInstKind::Sub { lhs: a, rhs: b }, TypeKind::U8), "i0:u8 = sub i1, p2");
    assert_eq!(one_inst(ValueInstKind::Mul { lhs: b, rhs: a }, TypeKind::I32), "i0:i32 = mul p2, i1");
    assert_eq!(one_inst(ValueInstKind::Div { lhs: a, rhs: a }, TypeKind::F32), "i0:f32 = div i1, i1");
    assert_eq!(one_inst(ValueInstKind::Neg { value: b }, TypeKind::I16), "i0:i16 = neg p2");
}

#[test]
fn effect_instruction_in_a_function() {
    let mut f = VirFunction::new(String::from("f"));
    let v = f.emit_const(BlockId(0), Constant::I64(3));
    let p = f.emit_print(BlockId(0), v);
    assert_eq!(format_inst(&f, p), "print i0");
}
