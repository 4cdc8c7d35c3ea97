use vstd::prelude::*;
use vstd::string::*;

use crate::grammar::TypeKind;
use crate::text::{decimal_string, int_decimal, nat_decimal, push_decimal};
use crate::vir::{
    BlockId, Constant, EffectInst, EffectV, FuncV, Inst, InstId, InstV, ValueId, ValueInstKind,
    VirFunction, placed_valid,
};

verus! {

/// How `{:?}` writes a string: in double quotes, with escapes.
pub uninterp spec fn string_debug(s: Seq<char>) -> Seq<char>;

/// Writes `s` as `format!("{:?}", s)` does; the result is named `string_debug`.
#[verifier::external_body]
pub(crate) fn debug_string(s: &String) -> (r: String)
    ensures
        r@ == string_debug(s@),
{
    format!("{:?}", s)
}

/// The name of a type.
pub open spec fn type_text(ty: TypeKind) -> Seq<char> {
    match ty {
        TypeKind::I8 => "i8"@,
        TypeKind::I16 => "i16"@,
        TypeKind::I32 => "i32"@,
        TypeKind::I64 => "i64"@,
        TypeKind::U8 => "u8"@,
        TypeKind::U16 => "u16"@,
        TypeKind::U32 => "u32"@,
        TypeKind::U64 => "u64"@,
        TypeKind::Unit => "unit"@,
        TypeKind::F32 => "f32"@,
        TypeKind::F64 => "f64"@,
        TypeKind::Bool => "bool"@,
        TypeKind::String => "string"@,
    }
}

/// A value: `i` and the instruction index, or `p` and the parameter index.
pub open spec fn value_id_text(v: ValueId) -> Seq<char> {
    match v {
        ValueId::Inst(i) => "i"@ + nat_decimal(i.0 as nat),
        ValueId::Param(p) => "p"@ + nat_decimal(p.0 as nat),
    }
}

/// Values separated by `, `.
pub open spec fn join_values(args: Seq<ValueId>) -> Seq<char>
    decreases args.len(),
{
    if args.len() == 0 {
        Seq::empty()
    } else if args.len() == 1 {
        value_id_text(args[0])
    } else {
        join_values(args.drop_last()) + ", "@ + value_id_text(args.last())
    }
}

/// The arguments of a jump: nothing if there are none, else in square brackets.
pub open spec fn block_args_text(args: Seq<ValueId>) -> Seq<char> {
    if args.len() == 0 {
        Seq::empty()
    } else {
        "["@ + join_values(args) + "]"@
    }
}

/// A block: `b` and its index.
pub open spec fn block_text(b: BlockId) -> Seq<char> {
    "b"@ + nat_decimal(b.0 as nat)
}

/// An effect instruction.
pub open spec fn effect_text(e: EffectV) -> Seq<char> {
    match e {
        EffectV::Print { value } => "print "@ + value_id_text(value),
        EffectV::Return { value } => match value {
            Some(v) => "return "@ + value_id_text(v),
            None => "return"@,
        },
        EffectV::Branch { cond, then_block, then_args, else_block, else_args } => "branch "@
            + value_id_text(cond) + ", "@ + block_text(then_block) + block_args_text(then_args)
            + ", "@ + block_text(else_block) + block_args_text(else_args),
        EffectV::Jump { target, args } => "jump "@ + block_text(target) + block_args_text(args),
    }
}

/// A constant: an integer in decimal, a floating-point constant as its literal,
/// a boolean as `true` or `false`, a string as `{:?}` writes it.
pub open spec fn constant_text(c: Constant) -> Seq<char> {
    match c {
        Constant::I8(v) => int_decimal(v as int),
        Constant::I16(v) => int_decimal(v as int),
        Constant::I32(v) => int_decimal(v as int),
        Constant::I64(v) => int_decimal(v as int),
        Constant::U8(v) => int_decimal(v as int),
        Constant::U16(v) => int_decimal(v as int),
        Constant::U32(v) => int_decimal(v as int),
        Constant::U64(v) => int_decimal(v as int),
        Constant::F32(t) => t@,
        Constant::F64(t) => t@,
        Constant::Bool(b) => if b {
            "true"@
        } else {
            "false"@
        },
        Constant::String(s) => string_debug(s@),
    }
}

/// The right-hand side of a value instruction.
pub open spec fn value_kind_text(k: ValueInstKind) -> Seq<char> {
    match k {
        ValueInstKind::Const { value } => "const "@ + constant_text(value),
        ValueInstKind::Add { lhs, rhs } => "add "@ + value_id_text(lhs) + ", "@ + value_id_text(rhs),
        ValueInstKind::Sub { lhs, rhs } => "sub "@ + value_id_text(lhs) + ", "@ + value_id_text(rhs),
        ValueInstKind::Mul { lhs, rhs } => "mul "@ + value_id_text(lhs) + ", "@ + value_id_text(rhs),
        ValueInstKind::Div { lhs, rhs } => "div "@ + value_id_text(lhs) + ", "@ + value_id_text(rhs),
        ValueInstKind::Neg { value } => "neg "@ + value_id_text(value),
    }
}

/// Instruction `id` of `f`: for a value, `i<id>:<type> = ` and its right-hand side.
pub open spec fn inst_text(f: FuncV, id: InstId) -> Seq<char> {
    match f.insts[id.0 as int] {
        InstV::Value(v) => "i"@ + nat_decimal(id.0 as nat) + ":"@ + type_text(v.ty) + " = "@
            + value_kind_text(v.kind),
        InstV::Effect(e) => effect_text(e),
    }
}

/// The name of a type.
pub fn format_type(ty: &TypeKind) -> (r: &'static str)
    ensures
        r@ == type_text(*ty),
{
    match ty {
        TypeKind::I8 => "i8",
        TypeKind::I16 => "i16",
        TypeKind::I32 => "i32",
        TypeKind::I64 => "i64",
        TypeKind::U8 => "u8",
        TypeKind::U16 => "u16",
        TypeKind::U32 => "u32",
        TypeKind::U64 => "u64",
        TypeKind::Unit => "unit",
        TypeKind::F32 => "f32",
        TypeKind::F64 => "f64",
        TypeKind::Bool => "bool",
        TypeKind::String => "string",
    }
}

/// Appends the text of a value to `s`.
fn push_value_id(s: &mut String, value: ValueId)
    ensures
        final(s)@ == old(s)@ + value_id_text(value),
{
    match value {
        ValueId::Inst(inst_id) => {
            s.append("i");
            push_decimal(s, inst_id.0 as u128);
        },
        ValueId::Param(param_id) => {
            s.append("p");
            push_decimal(s, param_id.0 as u128);
        },
    }
    assert(final(s)@ =~= old(s)@ + value_id_text(value));
}

/// The text of a value: `i` and an instruction index, or `p` and a parameter index.
pub fn format_value_id(value: ValueId) -> (r: String)
    ensures
        r@ == value_id_text(value),
{
    let mut s = String::new();
    push_value_id(&mut s, value);
    assert(s@ =~= value_id_text(value));
    s
}

/// The arguments of a jump: nothing if there are none, else in square brackets
/// and separated by `, `.
pub fn format_block_args(args: &[ValueId]) -> (r: String)
    ensures
        r@ == block_args_text(args@),
{
    let mut s = String::new();
    if args.len() == 0 {
        return s;
    }
    s.append("[");
    let mut i: usize = 0;
    while i < args.len()
        invariant
            i <= args.len(),
            args.len() > 0,
            s@ == "["@ + join_values(args@.take(i as int)),
        decreases args.len() - i,
    {
        let ghost before = s@;
        if i > 0 {
            s.append(", ");
        }
        push_value_id(&mut s, args[i]);
        proof {
            let t = args@.take(i + 1);
            assert(t.drop_last() =~= args@.take(i as int));
            if i == 0 {
                assert(args@.take(0) =~= Seq::<ValueId>::empty());
                assert(s@ =~= "["@ + join_values(t));
            } else {
                assert(s@ =~= "["@ + join_values(t));
            }
        }
        i = i + 1;
    }
    assert(args@.take(args.len() as int) =~= args@);
    s.append("]");
    s
}

/// Appends `b` and the block's index to `s`.
fn push_block(s: &mut String, b: BlockId)
    ensures
        final(s)@ == old(s)@ + block_text(b),
{
    s.append("b");
    push_decimal(s, b.0 as u128);
    assert(final(s)@ =~= old(s)@ + block_text(b));
}

/// The text of an effect instruction.
pub fn format_effect_inst(inst: &EffectInst) -> (r: String)
    ensures
        r@ == effect_text(inst@),
{
    let mut s = String::new();
    match inst {
        EffectInst::Print { value } => {
            s.append("print ");
            push_value_id(&mut s, *value);
        },
        EffectInst::Return { value } => match value {
            Some(v) => {
                s.append("return ");
                push_value_id(&mut s, *v);
            },
            None => {
                s.append("return");
            },
        },
        EffectInst::Branch { cond, then_block, then_args, else_block, else_args } => {
            s.append("branch ");
            push_value_id(&mut s, *cond);
            s.append(", ");
            push_block(&mut s, *then_block);
            let ta = format_block_args(then_args.as_slice());
            s.append(ta.as_str());
            s.append(", ");
            push_block(&mut s, *else_block);
            let ea = format_block_args(else_args.as_slice());
            s.append(ea.as_str());
        },
        EffectInst::Jump { target, args } => {
            s.append("jump ");
            push_block(&mut s, *target);
            let a = format_block_args(args.as_slice());
            s.append(a.as_str());
        },
    }
    assert(s@ =~= effect_text(inst@));
    s
}

/// The text of a constant.
fn format_constant(value: &Constant) -> (r: String)
    ensures
        r@ == constant_text(*value),
{
    match value {
        Constant::I8(v) => decimal_string(*v as i128),
        Constant::I16(v) => decimal_string(*v as i128),
        Constant::I32(v) => decimal_string(*v as i128),
        Constant::I64(v) => decimal_string(*v as i128),
        Constant::U8(v) => decimal_string(*v as i128),
        Constant::U16(v) => decimal_string(*v as i128),
        Constant::U32(v) => decimal_string(*v as i128),
        Constant::U64(v) => decimal_string(*v as i128),
        Constant::F32(t) => t.clone(),
        Constant::F64(t) => t.clone(),
        Constant::Bool(b) => if *b {
            String::from_str("true")
        } else {
            String::from_str("false")
        },
        Constant::String(t) => debug_string(t),
    }
}

/// The right-hand side of a value instruction.
fn format_value_inst_kind(kind: &ValueInstKind) -> (r: String)
    ensures
        r@ == value_kind_text(*kind),
{
    let mut s = String::new();
    match kind {
        ValueInstKind::Const { value } => {
            s.append("const ");
            let c = format_constant(value);
            s.append(c.as_str());
        },
        ValueInstKind::Add { lhs, rhs } => {
            s.append("add ");
            push_value_id(&mut s, *lhs);
            s.append(", ");
            push_value_id(&mut s, *rhs);
        },
        ValueInstKind::Sub { lhs, rhs } => {
            s.append("sub ");
            push_value_id(&mut s, *lhs);
            s.append(", ");
            push_value_id(&mut s, *rhs);
        },
        ValueInstKind::Mul { lhs, rhs } => {
            s.append("mul ");
            push_value_id(&mut s, *lhs);
            s.append(", ");
            push_value_id(&mut s, *rhs);
        },
        ValueInstKind::Div { lhs, rhs } => {
            s.append("div ");
            push_value_id(&mut s, *lhs);
            s.append(", ");
            push_value_id(&mut s, *rhs);
        },
        ValueInstKind::Neg { value } => {
            s.append("neg ");
            push_value_id(&mut s, *value);
        },
    }
    assert(s@ =~= value_kind_text(*kind));
    s
}

/// The text of instruction `inst_id` of `func`, which must exist.
pub fn format_inst(func: &VirFunction, inst_id: InstId) -> (r: String)
    requires
        inst_id.0 < func.insts.len(),
    ensures
        r@ == inst_text(func@, inst_id),
{
    let mut s = String::new();
    match &func.insts[inst_id.0 as usize] {
        Inst::Value(v) => {
            s.append("i");
            push_decimal(&mut s, inst_id.0 as u128);
            s.append(":");
            s.append(format_type(&v.ty));
            s.append(" = ");
            let rhs = format_value_inst_kind(&v.kind);
            s.append(rhs.as_str());
        },
        Inst::Effect(e) => {
            let t = format_effect_inst(e);
            s.append(t.as_str());
        },
    }
    assert(s@ =~= inst_text(func@, inst_id));
    s
}

} // verus!
