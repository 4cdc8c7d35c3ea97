use vstd::prelude::*;
use vstd::string::*;

use crate::analysis::{ArithOp, TypeError, Uninferable};
use crate::grammar::{NumericKind, Token, TypeKind};
use crate::lexer::LexError;
use crate::lower::{LowerError, Unlowered};
use crate::parser::ParseError;
use crate::ppv::{debug_string, format_type, string_debug, type_text};
use crate::text::{decimal_string, int_decimal, is_ascii_digit, is_digit_spec, nat_decimal, push_decimal};
use crate::verify::VerifyError;
use crate::vir::{BlockId, InstId, ParamId, ValueId};

verus! {

/// How `{:?}` writes a type: the name of its variant.
pub open spec fn type_debug(t: TypeKind) -> Seq<char> {
    match t {
        TypeKind::String => "String"@,
        TypeKind::Bool => "Bool"@,
        TypeKind::I8 => "I8"@,
        TypeKind::I16 => "I16"@,
        TypeKind::I32 => "I32"@,
        TypeKind::I64 => "I64"@,
        TypeKind::U8 => "U8"@,
        TypeKind::U16 => "U16"@,
        TypeKind::U32 => "U32"@,
        TypeKind::U64 => "U64"@,
        TypeKind::Unit => "Unit"@,
        TypeKind::F32 => "F32"@,
        TypeKind::F64 => "F64"@,
    }
}

fn push_type_debug(s: &mut String, t: TypeKind)
    ensures
        final(s)@ == old(s)@ + type_debug(t),
{
    match t {
        TypeKind::String => s.append("String"),
        TypeKind::Bool => s.append("Bool"),
        TypeKind::I8 => s.append("I8"),
        TypeKind::I16 => s.append("I16"),
        TypeKind::I32 => s.append("I32"),
        TypeKind::I64 => s.append("I64"),
        TypeKind::U8 => s.append("U8"),
        TypeKind::U16 => s.append("U16"),
        TypeKind::U32 => s.append("U32"),
        TypeKind::U64 => s.append("U64"),
        TypeKind::Unit => s.append("Unit"),
        TypeKind::F32 => s.append("F32"),
        TypeKind::F64 => s.append("F64"),
    }
}

/// How `{:?}` writes a block id.
pub open spec fn block_debug(b: BlockId) -> Seq<char> {
    "BlockId("@ + nat_decimal(b.0 as nat) + ")"@
}

/// How `{:?}` writes an instruction id.
pub open spec fn inst_debug(i: InstId) -> Seq<char> {
    "InstId("@ + nat_decimal(i.0 as nat) + ")"@
}

/// How `{:?}` writes a parameter id.
pub open spec fn param_debug(p: ParamId) -> Seq<char> {
    "ParamId("@ + nat_decimal(p.0 as nat) + ")"@
}

/// How `{:?}` writes a value.
pub open spec fn value_debug(v: ValueId) -> Seq<char> {
    match v {
        ValueId::Inst(i) => "Inst("@ + inst_debug(i) + ")"@,
        ValueId::Param(p) => "Param("@ + param_debug(p) + ")"@,
    }
}

fn push_block_debug(s: &mut String, x: BlockId)
    ensures
        final(s)@ == old(s)@ + block_debug(x),
{
    let ghost s0 = s@;
    s.append("BlockId(");
    push_decimal(s, x.0 as u128);
    s.append(")");
    assert(s@ =~= s0 + block_debug(x));
}

fn push_inst_debug(s: &mut String, x: InstId)
    ensures
        final(s)@ == old(s)@ + inst_debug(x),
{
    let ghost s0 = s@;
    s.append("InstId(");
    push_decimal(s, x.0 as u128);
    s.append(")");
    assert(s@ =~= s0 + inst_debug(x));
}

fn push_param_debug(s: &mut String, x: ParamId)
    ensures
        final(s)@ == old(s)@ + param_debug(x),
{
    let ghost s0 = s@;
    s.append("ParamId(");
    push_decimal(s, x.0 as u128);
    s.append(")");
    assert(s@ =~= s0 + param_debug(x));
}

fn push_value_debug(s: &mut String, v: ValueId)
    ensures
        final(s)@ == old(s)@ + value_debug(v),
{
    let ghost s0 = s@;
    match v {
        ValueId::Inst(i) => {
            s.append("Inst(");
            push_inst_debug(s, i);
            s.append(")");
        },
        ValueId::Param(p) => {
            s.append("Param(");
            push_param_debug(s, p);
            s.append(")");
        },
    }
    assert(s@ =~= s0 + value_debug(v));
}

/// How `{:?}` writes a typed number; a floating-point one by its bit pattern.
pub open spec fn numeric_debug(k: NumericKind) -> Seq<char> {
    match k {
        NumericKind::I8(x) => "I8("@ + int_decimal(x as int) + ")"@,
        NumericKind::I16(x) => "I16("@ + int_decimal(x as int) + ")"@,
        NumericKind::I32(x) => "I32("@ + int_decimal(x as int) + ")"@,
        NumericKind::I64(x) => "I64("@ + int_decimal(x as int) + ")"@,
        NumericKind::U8(x) => "U8("@ + int_decimal(x as int) + ")"@,
        NumericKind::U16(x) => "U16("@ + int_decimal(x as int) + ")"@,
        NumericKind::U32(x) => "U32("@ + int_decimal(x as int) + ")"@,
        NumericKind::U64(x) => "U64("@ + int_decimal(x as int) + ")"@,
        NumericKind::F32(x) => "F32("@ + nat_decimal(x as nat) + ")"@,
        NumericKind::F64(x) => "F64("@ + nat_decimal(x as nat) + ")"@,
    }
}

fn push_numeric_debug(s: &mut String, k: NumericKind)
    ensures
        final(s)@ == old(s)@ + numeric_debug(k),
{
    let ghost s0 = s@;
    match k {
        NumericKind::I8(x) => {
            s.append("I8(");
            let d = decimal_string(x as i128);
            s.append(d.as_str());
        },
        NumericKind::I16(x) => {
            s.append("I16(");
            let d = decimal_string(x as i128);
            s.append(d.as_str());
        },
        NumericKind::I32(x) => {
            s.append("I32(");
            let d = decimal_string(x as i128);
            s.append(d.as_str());
        },
        NumericKind::I64(x) => {
            s.append("I64(");
            let d = decimal_string(x as i128);
            s.append(d.as_str());
        },
        NumericKind::U8(x) => {
            s.append("U8(");
            let d = decimal_string(x as i128);
            s.append(d.as_str());
        },
        NumericKind::U16(x) => {
            s.append("U16(");
            let d = decimal_string(x as i128);
            s.append(d.as_str());
        },
        NumericKind::U32(x) => {
            s.append("U32(");
            let d = decimal_string(x as i128);
            s.append(d.as_str());
        },
        NumericKind::U64(x) => {
            s.append("U64(");
            let d = decimal_string(x as i128);
            s.append(d.as_str());
        },
        NumericKind::F32(x) => {
            s.append("F32(");
            push_decimal(s, x as u128);
        },
        NumericKind::F64(x) => {
            s.append("F64(");
            push_decimal(s, x as u128);
        },
    }
    s.append(")");
    assert(s@ =~= s0 + numeric_debug(k));
}

/// How `{:?}` writes a token.
pub open spec fn token_debug(t: Token) -> Seq<char> {
    match t {
        Token::Assign => "Assign"@,
        Token::Colon => "Colon"@,
        Token::Comma => "Comma"@,
        Token::Else => "Else"@,
        Token::Equals => "Equals"@,
        Token::If => "If"@,
        Token::LBrace => "LBrace"@,
        Token::LBracket => "LBracket"@,
        Token::Let => "Let"@,
        Token::LParen => "LParen"@,
        Token::Minus => "Minus"@,
        Token::Mut => "Mut"@,
        Token::Plus => "Plus"@,
        Token::Print => "Print"@,
        Token::RBrace => "RBrace"@,
        Token::RBracket => "RBracket"@,
        Token::Return => "Return"@,
        Token::RParen => "RParen"@,
        Token::Slash => "Slash"@,
        Token::Star => "Star"@,
        Token::Bool(b) => if b {
            "Bool(true)"@
        } else {
            "Bool(false)"@
        },
        Token::Ident(x) => "Ident("@ + string_debug(x@) + ")"@,
        Token::Number(k) => "Number("@ + numeric_debug(k) + ")"@,
        Token::NumberLiteral(x) => "NumberLiteral("@ + string_debug(x@) + ")"@,
        Token::String(x) => "String("@ + string_debug(x@) + ")"@,
        Token::Type(ty) => "Type("@ + type_debug(ty) + ")"@,
    }
}

/// How `{:?}` writes a token that may be missing.
pub open spec fn option_token_debug(t: Option<Token>) -> Seq<char> {
    match t {
        Some(x) => "Some("@ + token_debug(x) + ")"@,
        None => "None"@,
    }
}

fn push_token_debug(s: &mut String, t: &Token)
    ensures
        final(s)@ == old(s)@ + token_debug(*t),
{
    let ghost s0 = s@;
    match t {
        Token::Assign => s.append("Assign"),
        Token::Colon => s.append("Colon"),
        Token::Comma => s.append("Comma"),
        Token::Else => s.append("Else"),
        Token::Equals => s.append("Equals"),
        Token::If => s.append("If"),
        Token::LBrace => s.append("LBrace"),
        Token::LBracket => s.append("LBracket"),
        Token::Let => s.append("Let"),
        Token::LParen => s.append("LParen"),
        Token::Minus => s.append("Minus"),
        Token::Mut => s.append("Mut"),
        Token::Plus => s.append("Plus"),
        Token::Print => s.append("Print"),
        Token::RBrace => s.append("RBrace"),
        Token::RBracket => s.append("RBracket"),
        Token::Return => s.append("Return"),
        Token::RParen => s.append("RParen"),
        Token::Slash => s.append("Slash"),
        Token::Star => s.append("Star"),
        Token::Bool(b) => if *b {
            s.append("Bool(true)")
        } else {
            s.append("Bool(false)")
        },
        Token::Ident(x) => {
            s.append("Ident(");
            let d = debug_string(x);
            s.append(d.as_str());
            s.append(")");
        },
        Token::Number(k) => {
            s.append("Number(");
            push_numeric_debug(s, *k);
            s.append(")");
        },
        Token::NumberLiteral(x) => {
            s.append("NumberLiteral(");
            let d = debug_string(x);
            s.append(d.as_str());
            s.append(")");
        },
        Token::String(x) => {
            s.append("String(");
            let d = debug_string(x);
            s.append(d.as_str());
            s.append(")");
        },
        Token::Type(ty) => {
            s.append("Type(");
            push_type_debug(s, *ty);
            s.append(")");
        },
    }
    assert(s@ =~= s0 + token_debug(*t));
}

fn push_option_token_debug(s: &mut String, t: &Option<Token>)
    ensures
        final(s)@ == old(s)@ + option_token_debug(*t),
{
    let ghost s0 = s@;
    match t {
        Some(x) => {
            s.append("Some(");
            push_token_debug(s, x);
            s.append(")");
        },
        None => s.append("None"),
    }
    assert(s@ =~= s0 + option_token_debug(*t));
}

/// The kind of error that `str::parse` reports for an integer type whose values
/// are `lo..=hi`, on text that does not read as one: `Empty` for no text,
/// `InvalidDigit` for a sign alone or the first character that is not a digit,
/// and `PosOverflow` or `NegOverflow` where the digits read so far leave the
/// range first.
pub open spec fn int_error_kind(s: Seq<char>, lo: int, hi: int) -> Seq<char> {
    if s.len() == 0 {
        "Empty"@
    } else if (s[0] == '+' || s[0] == '-') && s.len() == 1 {
        "InvalidDigit"@
    } else {
        let neg = s[0] == '-' && lo < 0;
        let d = if s[0] == '+' || neg { s.drop_first() } else { s };
        digits_error_kind(d, 0, 0, if neg { -lo } else { hi }, neg)
    }
}

/// The fault among digits `i` on of `d`, where `acc` is the magnitude read so
/// far and `limit` the largest magnitude allowed; nothing where there is none.
pub open spec fn digits_error_kind(d: Seq<char>, i: int, acc: int, limit: int, neg: bool) -> Seq<
    char,
>
    decreases d.len() - i,
{
    if i < 0 || i >= d.len() {
        Seq::empty()
    } else if !is_digit_spec(d[i]) {
        "InvalidDigit"@
    } else {
        let next = acc * 10 + (d[i] as int - '0' as int);
        if next > limit {
            if neg {
                "NegOverflow"@
            } else {
                "PosOverflow"@
            }
        } else {
            digits_error_kind(d, i + 1, next, limit, neg)
        }
    }
}

/// How `{:?}` writes the error of `str::parse` for a literal of the numeric type
/// `t` that does not read as one.
pub open spec fn literal_error_debug(n: Seq<char>, t: TypeKind) -> Seq<char> {
    let kind = match t {
        TypeKind::I8 => int_error_kind(n, -0x80, 0x7f),
        TypeKind::I16 => int_error_kind(n, -0x8000, 0x7fff),
        TypeKind::I32 => int_error_kind(n, -0x8000_0000, 0x7fff_ffff),
        TypeKind::I64 => int_error_kind(n, -0x8000_0000_0000_0000, 0x7fff_ffff_ffff_ffff),
        TypeKind::U8 => int_error_kind(n, 0, 0xff),
        TypeKind::U16 => int_error_kind(n, 0, 0xffff),
        TypeKind::U32 => int_error_kind(n, 0, 0xffff_ffff),
        TypeKind::U64 => int_error_kind(n, 0, 0xffff_ffff_ffff_ffff),
        _ => if n.len() == 0 {
            "Empty"@
        } else {
            "Invalid"@
        },
    };
    if t == TypeKind::F32 || t == TypeKind::F64 {
        "ParseFloatError { kind: "@ + kind + " }"@
    } else {
        "ParseIntError { kind: "@ + kind + " }"@
    }
}

fn int_error_kind_exec(s: &str, lo: i128, hi: i128) -> (r: &'static str)
    requires
        -0x1_0000_0000_0000_0000 <= lo <= 0 <= hi <= 0xffff_ffff_ffff_ffff,
    ensures
        r@ == int_error_kind(s@, lo as int, hi as int),
{
    let n = s.unicode_len();
    if n == 0 {
        return "Empty";
    }
    let first = s.get_char(0);
    if (first == '+' || first == '-') && n == 1 {
        return "InvalidDigit";
    }
    let neg = first == '-' && lo < 0;
    let start: usize = if first == '+' || neg { 1 } else { 0 };
    let ghost d = if first == '+' || neg { s@.drop_first() } else { s@ };
    assert(d =~= s@.subrange(start as int, n as int));
    let limit: u128 = if neg { (0 - lo) as u128 } else { hi as u128 };
    let ghost lim: int = if neg { -lo } else { hi as int };
    let mut acc: u128 = 0;
    let mut i: usize = start;
    assert(int_error_kind(s@, lo as int, hi as int) == digits_error_kind(d, 0, 0, lim, neg));
    while i < n
        invariant
            n == s@.len(),
            start <= i <= n,
            d =~= s@.subrange(start as int, n as int),
            limit == lim,
            limit <= 0x1_0000_0000_0000_0000,
            acc <= limit,
            digits_error_kind(d, i - start, acc as int, lim, neg) == digits_error_kind(d, 0, 0, lim, neg),
            int_error_kind(s@, lo as int, hi as int) == digits_error_kind(d, 0, 0, lim, neg),
        decreases n - i,
    {
        let c = s.get_char(i);
        let ghost k: int = i - start;
        assert(d[k] == c);
        if !is_ascii_digit(c) {
            return "InvalidDigit";
        }
        let dg: u8 = if c == '0' { 0 } else if c == '1' { 1 } else if c == '2' { 2 } else if c
            == '3' { 3 } else if c == '4' { 4 } else if c == '5' { 5 } else if c == '6' { 6 } else if c
            == '7' { 7 } else if c == '8' { 8 } else { 9 };
        assert(dg as int == c as int - '0' as int);
        let next = acc * 10 + dg as u128;
        if next > limit {
            return if neg { "NegOverflow" } else { "PosOverflow" };
        }
        acc = next;
        i = i + 1;
    }
    proof {
        reveal_strlit("");
    }
    ""
}

fn push_literal_error_debug(s: &mut String, n: &String, t: TypeKind)
    ensures
        final(s)@ == old(s)@ + literal_error_debug(n@, t),
{
    let ghost s0 = s@;
    let text = n.as_str();
    let kind = match t {
        TypeKind::I8 => int_error_kind_exec(text, -0x80, 0x7f),
        TypeKind::I16 => int_error_kind_exec(text, -0x8000, 0x7fff),
        TypeKind::I32 => int_error_kind_exec(text, -0x8000_0000, 0x7fff_ffff),
        TypeKind::I64 => int_error_kind_exec(text, -0x8000_0000_0000_0000, 0x7fff_ffff_ffff_ffff),
        TypeKind::U8 => int_error_kind_exec(text, 0, 0xff),
        TypeKind::U16 => int_error_kind_exec(text, 0, 0xffff),
        TypeKind::U32 => int_error_kind_exec(text, 0, 0xffff_ffff),
        TypeKind::U64 => int_error_kind_exec(text, 0, 0xffff_ffff_ffff_ffff),
        _ => if text.unicode_len() == 0 {
            "Empty"
        } else {
            "Invalid"
        },
    };
    if t == TypeKind::F32 || t == TypeKind::F64 {
        s.append("ParseFloatError { kind: ");
    } else {
        s.append("ParseIntError { kind: ");
    }
    s.append(kind);
    s.append(" }");
    assert(s@ =~= s0 + literal_error_debug(n@, t));
}

/// The text of a VIR fault.
pub open spec fn verify_error_text(e: VerifyError) -> Seq<char> {
    match e {
        VerifyError::EntryMissing { entry, num_blocks } => "entry block "@ + block_debug(entry) + " does not exist (blocks.len() = "@ + nat_decimal(num_blocks as nat) + ")"@,
        VerifyError::InvalidParam { block, param } => "block "@ + block_debug(block) + " references invalid ParamId("@ + nat_decimal(param.0 as nat) + ")"@,
        VerifyError::ParamOwnerMismatch { block, param, owner } => "block "@ + block_debug(block) + " contains ParamId("@ + nat_decimal(param.0 as nat) + "), but that param belongs to block "@ + block_debug(owner),
        VerifyError::EmptyBlock { block } => "block "@ + block_debug(block) + " is empty"@,
        VerifyError::InvalidInst { block, inst } => "block "@ + block_debug(block) + " references invalid InstId("@ + nat_decimal(inst.0 as nat) + ")"@,
        VerifyError::InstAfterTerminator { block, inst } => "block "@ + block_debug(block) + " contains instruction "@ + inst_debug(inst) + " after a terminator"@,
        VerifyError::InstInTwoBlocks { inst, first, second } => "instruction "@ + inst_debug(inst) + " appears in multiple blocks: "@ + block_debug(first) + " and "@ + block_debug(second),
        VerifyError::MissingTerminator { block } => "block "@ + block_debug(block) + " does not end in a terminator"@,
        VerifyError::UnplacedInst { index } => "instruction InstId("@ + nat_decimal(index as nat) + ") is not placed in any block"@,
        VerifyError::ConstTypeMismatch { inst, const_ty, result_ty } => "instruction "@ + inst_debug(inst) + " is const "@ + type_debug(const_ty) + " but has result type "@ + type_debug(result_ty),
        VerifyError::OperandTypeMismatch { inst, lhs, rhs } => "instruction "@ + inst_debug(inst) + " has mismatched operand types: lhs="@ + type_debug(lhs) + ", rhs="@ + type_debug(rhs),
        VerifyError::ResultTypeMismatch { inst, result, operand } => "instruction "@ + inst_debug(inst) + " result type "@ + type_debug(result) + " does not match operand type "@ + type_debug(operand),
        VerifyError::NonNumericArith { inst, ty } => "instruction "@ + inst_debug(inst) + " uses non-numeric type "@ + type_debug(ty) + " in arithmetic"@,
        VerifyError::NegTypeMismatch { inst, result, operand } => "instruction "@ + inst_debug(inst) + " neg result type "@ + type_debug(result) + " does not match operand type "@ + type_debug(operand),
        VerifyError::NonNumericNeg { inst, ty } => "instruction "@ + inst_debug(inst) + " neg uses non-numeric type "@ + type_debug(ty),
        VerifyError::ReturnValueInVoid { inst, ty } => "instruction "@ + inst_debug(inst) + " returns value of type "@ + type_debug(ty) + ", but function returns no value"@,
        VerifyError::MissingReturnValue { inst, ret_ty } => "instruction "@ + inst_debug(inst) + " returns no value, but function expects return type "@ + type_debug(ret_ty),
        VerifyError::ReturnTypeMismatch { inst, value_ty, ret_ty } => "instruction "@ + inst_debug(inst) + " returns value of type "@ + type_debug(value_ty) + ", but function expects "@ + type_debug(ret_ty),
        VerifyError::NonBoolBranch { inst, ty } => "branch "@ + inst_debug(inst) + " has non-bool condition type "@ + type_debug(ty),
        VerifyError::InvalidJumpTarget { inst, target } => "instruction "@ + inst_debug(inst) + " jumps to invalid block "@ + block_debug(target),
        VerifyError::JumpArgCount { inst, target, passed, expected } => "instruction "@ + inst_debug(inst) + " jumps to block "@ + block_debug(target) + " passing "@ + nat_decimal(passed as nat) + " args, but block expects "@ + nat_decimal(expected as nat),
        VerifyError::JumpArgType { inst, target, arg_ty, param, param_ty } => "instruction "@ + inst_debug(inst) + " jump to "@ + block_debug(target) + " passes arg of type "@ + type_debug(arg_ty) + " to param "@ + param_debug(param) + " of type "@ + type_debug(param_ty),
        VerifyError::ValueOutOfRange { inst } => "ValueId::Inst("@ + nat_decimal(inst as nat) + ") refers to non-existent instruction"@,
        VerifyError::ValueIsEffect { inst } => "ValueId::Inst("@ + nat_decimal(inst as nat) + ") refers to an effect instruction, not a value-producing instruction"@,
        VerifyError::ParamOutOfRange { param } => "ValueId::Param("@ + nat_decimal(param as nat) + ") refers to non-existent block param"@,
    }
}

impl VerifyError {
    /// The text of this error, as `verify_error_text` gives it.
    pub fn message(&self) -> (r: String)
        ensures
            r@ == verify_error_text(*self),
    {
        match self {
            VerifyError::EntryMissing { entry, num_blocks } => {
                let mut s = String::from_str("entry block ");
                push_block_debug(&mut s, *entry);
                s.append(" does not exist (blocks.len() = ");
                push_decimal(&mut s, (*num_blocks) as u128);
                s.append(")");
                s
            },
            VerifyError::InvalidParam { block, param } => {
                let mut s = String::from_str("block ");
                push_block_debug(&mut s, *block);
                s.append(" references invalid ParamId(");
                push_decimal(&mut s, param.0 as u128);
                s.append(")");
                s
            },
            VerifyError::ParamOwnerMismatch { block, param, owner } => {
                let mut s = String::from_str("block ");
                push_block_debug(&mut s, *block);
                s.append(" contains ParamId(");
                push_decimal(&mut s, param.0 as u128);
                s.append("), but that param belongs to block ");
                push_block_debug(&mut s, *owner);
                s
            },
            VerifyError::EmptyBlock { block } => {
                let mut s = String::from_str("block ");
                push_block_debug(&mut s, *block);
                s.append(" is empty");
                s
            },
            VerifyError::InvalidInst { block, inst } => {
                let mut s = String::from_str("block ");
                push_block_debug(&mut s, *block);
                s.append(" references invalid InstId(");
                push_decimal(&mut s, inst.0 as u128);
                s.append(")");
                s
            },
            VerifyError::InstAfterTerminator { block, inst } => {
                let mut s = String::from_str("block ");
                push_block_debug(&mut s, *block);
                s.append(" contains instruction ");
                push_inst_debug(&mut s, *inst);
                s.append(" after a terminator");
                s
            },
            VerifyError::InstInTwoBlocks { inst, first, second } => {
                let mut s = String::from_str("instruction ");
                push_inst_debug(&mut s, *inst);
                s.append(" appears in multiple blocks: ");
                push_block_debug(&mut s, *first);
                s.append(" and ");
                push_block_debug(&mut s, *second);
                s
            },
            VerifyError::MissingTerminator { block } => {
                let mut s = String::from_str("block ");
                push_block_debug(&mut s, *block);
                s.append(" does not end in a terminator");
                s
            },
            VerifyError::UnplacedInst { index } => {
                let mut s = String::from_str("instruction InstId(");
                push_decimal(&mut s, (*index) as u128);
                s.append(") is not placed in any block");
                s
            },
            VerifyError::ConstTypeMismatch { inst, const_ty, result_ty } => {
                let mut s = String::from_str("instruction ");
                push_inst_debug(&mut s, *inst);
                s.append(" is const ");
                push_type_debug(&mut s, *const_ty);
                s.append(" but has result type ");
                push_type_debug(&mut s, *result_ty);
                s
            },
            VerifyError::OperandTypeMismatch { inst, lhs, rhs } => {
                let mut s = String::from_str("instruction ");
                push_inst_debug(&mut s, *inst);
                s.append(" has mismatched operand types: lhs=");
                push_type_debug(&mut s, *lhs);
                s.append(", rhs=");
                push_type_debug(&mut s, *rhs);
                s
            },
            VerifyError::ResultTypeMismatch { inst, result, operand } => {
                let mut s = String::from_str("instruction ");
                push_inst_debug(&mut s, *inst);
                s.append(" result type ");
                push_type_debug(&mut s, *result);
                s.append(" does not match operand type ");
                push_type_debug(&mut s, *operand);
                s
            },
            VerifyError::NonNumericArith { inst, ty } => {
                let mut s = String::from_str("instruction ");
                push_inst_debug(&mut s, *inst);
                s.append(" uses non-numeric type ");
                push_type_debug(&mut s, *ty);
                s.append(" in arithmetic");
                s
            },
            VerifyError::NegTypeMismatch { inst, result, operand } => {
                let mut s = String::from_str("instruction ");
                push_inst_debug(&mut s, *inst);
                s.append(" neg result type ");
                push_type_debug(&mut s, *result);
                s.append(" does not match operand type ");
                push_type_debug(&mut s, *operand);
                s
            },
            VerifyError::NonNumericNeg { inst, ty } => {
                let mut s = String::from_str("instruction ");
                push_inst_debug(&mut s, *inst);
                s.append(" neg uses non-numeric type ");
                push_type_debug(&mut s, *ty);
                s
            },
            VerifyError::ReturnValueInVoid { inst, ty } => {
                let mut s = String::from_str("instruction ");
                push_inst_debug(&mut s, *inst);
                s.append(" returns value of type ");
                push_type_debug(&mut s, *ty);
                s.append(", but function returns no value");
                s
            },
            VerifyError::MissingReturnValue { inst, ret_ty } => {
                let mut s = String::from_str("instruction ");
                push_inst_debug(&mut s, *inst);
                s.append(" returns no value, but function expects return type ");
                push_type_debug(&mut s, *ret_ty);
                s
            },
            VerifyError::ReturnTypeMismatch { inst, value_ty, ret_ty } => {
                let mut s = String::from_str("instruction ");
                push_inst_debug(&mut s, *inst);
                s.append(" returns value of type ");
                push_type_debug(&mut s, *value_ty);
                s.append(", but function expects ");
                push_type_debug(&mut s, *ret_ty);
                s
            },
            VerifyError::NonBoolBranch { inst, ty } => {
                let mut s = String::from_str("branch ");
                push_inst_debug(&mut s, *inst);
                s.append(" has non-bool condition type ");
                push_type_debug(&mut s, *ty);
                s
            },
            VerifyError::InvalidJumpTarget { inst, target } => {
                let mut s = String::from_str("instruction ");
                push_inst_debug(&mut s, *inst);
                s.append(" jumps to invalid block ");
                push_block_debug(&mut s, *target);
                s
            },
            VerifyError::JumpArgCount { inst, target, passed, expected } => {
                let mut s = String::from_str("instruction ");
                push_inst_debug(&mut s, *inst);
                s.append(" jumps to block ");
                push_block_debug(&mut s, *target);
                s.append(" passing ");
                push_decimal(&mut s, (*passed) as u128);
                s.append(" args, but block expects ");
                push_decimal(&mut s, (*expected) as u128);
                s
            },
            VerifyError::JumpArgType { inst, target, arg_ty, param, param_ty } => {
                let mut s = String::from_str("instruction ");
                push_inst_debug(&mut s, *inst);
                s.append(" jump to ");
                push_block_debug(&mut s, *target);
                s.append(" passes arg of type ");
                push_type_debug(&mut s, *arg_ty);
                s.append(" to param ");
                push_param_debug(&mut s, *param);
                s.append(" of type ");
                push_type_debug(&mut s, *param_ty);
                s
            },
            VerifyError::ValueOutOfRange { inst } => {
                let mut s = String::from_str("ValueId::Inst(");
                push_decimal(&mut s, (*inst) as u128);
                s.append(") refers to non-existent instruction");
                s
            },
            VerifyError::ValueIsEffect { inst } => {
                let mut s = String::from_str("ValueId::Inst(");
                push_decimal(&mut s, (*inst) as u128);
                s.append(") refers to an effect instruction, not a value-producing instruction");
                s
            },
            VerifyError::ParamOutOfRange { param } => {
                let mut s = String::from_str("ValueId::Param(");
                push_decimal(&mut s, (*param) as u128);
                s.append(") refers to non-existent block param");
                s
            },
        }
    }
}

/// The text of a type error.
pub open spec fn type_error_text(e: TypeError) -> Seq<char> {
    match e {
        TypeError::NonBoolCondition(t) => "If-condition must be Bool, got "@ + type_debug(t),
        TypeError::BranchMismatch(a, b) => "Type mismatch in if branches: then = "@ + type_debug(a) + ", else = "@ + type_debug(b),
        TypeError::NegateUnsigned(t) => "Cannot negate unsigned type "@ + type_debug(t),
        TypeError::NegateNonNumeric(t) => "Cannot negate "@ + type_debug(t),
        TypeError::LiteralDoesNotFit(n, t) => "'"@ + n@ + "' does not fit in "@ + type_text(t),
        TypeError::ExpectedNumeric(t) => "Expected numeric type, got "@ + type_debug(t),
        TypeError::UndefinedVariable(n) => "Undefined variable '"@ + n@ + "'"@,
        TypeError::OperandMismatch(ArithOp::Add, l, r) => "Cannot add "@ + type_debug(l) + " and "@ + type_debug(r),
        TypeError::OperandMismatch(ArithOp::Sub, l, r) => "Cannot subtract "@ + type_debug(l) + " and "@ + type_debug(r),
        TypeError::OperandMismatch(ArithOp::Mul, l, r) => "Cannot multiply "@ + type_debug(l) + " and "@ + type_debug(r),
        TypeError::OperandMismatch(ArithOp::Div, l, r) => "Cannot divide "@ + type_debug(l) + " and "@ + type_debug(r),
        TypeError::CannotInfer(Uninferable::Call) => "Cannot infer type for a call"@,
        TypeError::CannotInfer(Uninferable::Number(k)) => "Cannot infer type for Number("@ + numeric_debug(k) + ")"@,
        TypeError::IdentifierNotFound(n) => "Identifier "@ + n@ + " not found"@,
        TypeError::Redeclared(n) => "Cannot redeclare existing identifier "@ + n@,
        TypeError::DeclaredMismatch(d, i) => "Declared type "@ + type_debug(d) + " does not match inferred type "@ + type_debug(i),
        TypeError::ReassignUndefined(n) => "Cannot reassign undefined identifier "@ + n@,
        TypeError::ReassignImmutable(n) => "Cannot reassign immutable identifier "@ + n@,
        TypeError::ReassignMismatch(n, t) => "Value for "@ + string_debug(n@) + " does not match declared type "@ + type_debug(t),
    }
}

impl TypeError {
    /// The text of this error, as `type_error_text` gives it.
    pub fn message(&self) -> (r: String)
        ensures
            r@ == type_error_text(*self),
    {
        match self {
            TypeError::NonBoolCondition(t) => {
                let mut s = String::from_str("If-condition must be Bool, got ");
                push_type_debug(&mut s, *t);
                s
            },
            TypeError::BranchMismatch(a, b) => {
                let mut s = String::from_str("Type mismatch in if branches: then = ");
                push_type_debug(&mut s, *a);
                s.append(", else = ");
                push_type_debug(&mut s, *b);
                s
            },
            TypeError::NegateUnsigned(t) => {
                let mut s = String::from_str("Cannot negate unsigned type ");
                push_type_debug(&mut s, *t);
                s
            },
            TypeError::NegateNonNumeric(t) => {
                let mut s = String::from_str("Cannot negate ");
                push_type_debug(&mut s, *t);
                s
            },
            TypeError::LiteralDoesNotFit(n, t) => {
                let mut s = String::from_str("'");
                s.append(n.as_str());
                s.append("' does not fit in ");
                s.append(format_type(t));
                s
            },
            TypeError::ExpectedNumeric(t) => {
                let mut s = String::from_str("Expected numeric type, got ");
                push_type_debug(&mut s, *t);
                s
            },
            TypeError::UndefinedVariable(n) => {
                let mut s = String::from_str("Undefined variable '");
                s.append(n.as_str());
                s.append("'");
                s
            },
            TypeError::OperandMismatch(ArithOp::Add, l, r) => {
                let mut s = String::from_str("Cannot add ");
                push_type_debug(&mut s, *l);
                s.append(" and ");
                push_type_debug(&mut s, *r);
                s
            },
            TypeError::OperandMismatch(ArithOp::Sub, l, r) => {
                let mut s = String::from_str("Cannot subtract ");
                push_type_debug(&mut s, *l);
                s.append(" and ");
                push_type_debug(&mut s, *r);
                s
            },
            TypeError::OperandMismatch(ArithOp::Mul, l, r) => {
                let mut s = String::from_str("Cannot multiply ");
                push_type_debug(&mut s, *l);
                s.append(" and ");
                push_type_debug(&mut s, *r);
                s
            },
            TypeError::OperandMismatch(ArithOp::Div, l, r) => {
                let mut s = String::from_str("Cannot divide ");
                push_type_debug(&mut s, *l);
                s.append(" and ");
                push_type_debug(&mut s, *r);
                s
            },
            TypeError::CannotInfer(Uninferable::Call) => {
                let mut s = String::from_str("Cannot infer type for a call");
                s
            },
            TypeError::CannotInfer(Uninferable::Number(k)) => {
                let mut s = String::from_str("Cannot infer type for Number(");
                push_numeric_debug(&mut s, *k);
                s.append(")");
                s
            },
            TypeError::IdentifierNotFound(n) => {
                let mut s = String::from_str("Identifier ");
                s.append(n.as_str());
                s.append(" not found");
                s
            },
            TypeError::Redeclared(n) => {
                let mut s = String::from_str("Cannot redeclare existing identifier ");
                s.append(n.as_str());
                s
            },
            TypeError::DeclaredMismatch(d, i) => {
                let mut s = String::from_str("Declared type ");
                push_type_debug(&mut s, *d);
                s.append(" does not match inferred type ");
                push_type_debug(&mut s, *i);
                s
            },
            TypeError::ReassignUndefined(n) => {
                let mut s = String::from_str("Cannot reassign undefined identifier ");
                s.append(n.as_str());
                s
            },
            TypeError::ReassignImmutable(n) => {
                let mut s = String::from_str("Cannot reassign immutable identifier ");
                s.append(n.as_str());
                s
            },
            TypeError::ReassignMismatch(n, t) => {
                let mut s = String::from_str("Value for ");
                let d = debug_string(n);
                s.append(d.as_str());
                s.append(" does not match declared type ");
                push_type_debug(&mut s, *t);
                s
            },
        }
    }
}

/// The text of a lowering error.
pub open spec fn lower_error_text(e: LowerError) -> Seq<char> {
    match e {
        LowerError::MissingLetType(_) => "type inference should have assigned a type to every let"@,
        LowerError::BlockLetMissingType(n) => "Block local let '"@ + n@ + "' missing type"@,
        LowerError::LetTypeMismatch(n, e, a) => "let '"@ + n@ + "' expected type "@ + type_debug(e) + ", got "@ + type_debug(a),
        LowerError::UnknownVariable(n) => "unknown variable '"@ + n@ + "'"@,
        LowerError::ReassignImmutable(n, false) => "cannot reassign immutable variable '"@ + n@ + "'"@,
        LowerError::ReassignImmutable(n, true) => "Cannot reassign immutable variable '"@ + n@ + "' inside block"@,
        LowerError::AssignTypeMismatch(n, a, t) => "cannot assign value of type "@ + type_debug(a) + " to variable '"@ + n@ + "' of type "@ + type_debug(t),
        LowerError::NonNumericLiteral(t) => "numeric literal cannot have type "@ + type_debug(t),
        LowerError::InvalidLiteral(n, t) => "invalid "@ + type_text(t) + " literal: "@ + literal_error_debug(n@, t),
        LowerError::StringTypeMismatch(t) => "string literal does not match expected type "@ + type_debug(t),
        LowerError::BoolTypeMismatch(t) => "bool literal does not match expected type "@ + type_debug(t),
        LowerError::OperandMismatch(ArithOp::Add, l, r, t) => "type mismatch in add: lhs="@ + type_debug(l) + ", rhs="@ + type_debug(r) + ", expected="@ + type_debug(t),
        LowerError::OperandMismatch(ArithOp::Sub, l, r, t) => "type mismatch in sub: lhs="@ + type_debug(l) + ", rhs="@ + type_debug(r) + ", expected="@ + type_debug(t),
        LowerError::OperandMismatch(ArithOp::Mul, l, r, t) => "type mismatch in mul: lhs="@ + type_debug(l) + ", rhs="@ + type_debug(r) + ", expected="@ + type_debug(t),
        LowerError::OperandMismatch(ArithOp::Div, l, r, t) => "type mismatch in div: lhs="@ + type_debug(l) + ", rhs="@ + type_debug(r) + ", expected="@ + type_debug(t),
        LowerError::NotAValue(v) => "ValueId::"@ + value_debug(v) + " refers to non-value instruction"@,
        LowerError::Unsupported(Unlowered::Call) => "lowering does not handle calls"@,
        LowerError::Unsupported(Unlowered::Number) => "lowering does not handle typed numbers"@,
        LowerError::DuplicateFunction(n) => "Function named '"@ + string_debug(n@) + "' already exists"@,
        LowerError::TooManyBlocks => "attempt to subtract with overflow"@,
        LowerError::Invalid(i, e) => "VIR verification failed for function #"@ + nat_decimal(i as nat) + " ('global'): "@ + verify_error_text(e),
    }
}

impl LowerError {
    /// The text of this error, as `lower_error_text` gives it.
    pub fn message(&self) -> (r: String)
        ensures
            r@ == lower_error_text(*self),
    {
        match self {
            LowerError::MissingLetType(_) => {
                let mut s = String::from_str("type inference should have assigned a type to every let");
                s
            },
            LowerError::BlockLetMissingType(n) => {
                let mut s = String::from_str("Block local let '");
                s.append(n.as_str());
                s.append("' missing type");
                s
            },
            LowerError::LetTypeMismatch(n, e, a) => {
                let mut s = String::from_str("let '");
                s.append(n.as_str());
                s.append("' expected type ");
                push_type_debug(&mut s, *e);
                s.append(", got ");
                push_type_debug(&mut s, *a);
                s
            },
            LowerError::UnknownVariable(n) => {
                let mut s = String::from_str("unknown variable '");
                s.append(n.as_str());
                s.append("'");
                s
            },
            LowerError::ReassignImmutable(n, false) => {
                let mut s = String::from_str("cannot reassign immutable variable '");
                s.append(n.as_str());
                s.append("'");
                s
            },
            LowerError::ReassignImmutable(n, true) => {
                let mut s = String::from_str("Cannot reassign immutable variable '");
                s.append(n.as_str());
                s.append("' inside block");
                s
            },
            LowerError::AssignTypeMismatch(n, a, t) => {
                let mut s = String::from_str("cannot assign value of type ");
                push_type_debug(&mut s, *a);
                s.append(" to variable '");
                s.append(n.as_str());
                s.append("' of type ");
                push_type_debug(&mut s, *t);
                s
            },
            LowerError::NonNumericLiteral(t) => {
                let mut s = String::from_str("numeric literal cannot have type ");
                push_type_debug(&mut s, *t);
                s
            },
            LowerError::InvalidLiteral(n, t) => {
                let mut s = String::from_str("invalid ");
                s.append(format_type(t));
                s.append(" literal: ");
                push_literal_error_debug(&mut s, n, *t);
                s
            },
            LowerError::StringTypeMismatch(t) => {
                let mut s = String::from_str("string literal does not match expected type ");
                push_type_debug(&mut s, *t);
                s
            },
            LowerError::BoolTypeMismatch(t) => {
                let mut s = String::from_str("bool literal does not match expected type ");
                push_type_debug(&mut s, *t);
                s
            },
            LowerError::OperandMismatch(ArithOp::Add, l, r, t) => {
                let mut s = String::from_str("type mismatch in add: lhs=");
                push_type_debug(&mut s, *l);
                s.append(", rhs=");
                push_type_debug(&mut s, *r);
                s.append(", expected=");
                push_type_debug(&mut s, *t);
                s
            },
            LowerError::OperandMismatch(ArithOp::Sub, l, r, t) => {
                let mut s = String::from_str("type mismatch in sub: lhs=");
                push_type_debug(&mut s, *l);
                s.append(", rhs=");
                push_type_debug(&mut s, *r);
                s.append(", expected=");
                push_type_debug(&mut s, *t);
                s
            },
            LowerError::OperandMismatch(ArithOp::Mul, l, r, t) => {
                let mut s = String::from_str("type mismatch in mul: lhs=");
                push_type_debug(&mut s, *l);
                s.append(", rhs=");
                push_type_debug(&mut s, *r);
                s.append(", expected=");
                push_type_debug(&mut s, *t);
                s
            },
            LowerError::OperandMismatch(ArithOp::Div, l, r, t) => {
                let mut s = String::from_str("type mismatch in div: lhs=");
                push_type_debug(&mut s, *l);
                s.append(", rhs=");
                push_type_debug(&mut s, *r);
                s.append(", expected=");
                push_type_debug(&mut s, *t);
                s
            },
            LowerError::NotAValue(v) => {
                let mut s = String::from_str("ValueId::");
                push_value_debug(&mut s, *v);
                s.append(" refers to non-value instruction");
                s
            },
            LowerError::Unsupported(Unlowered::Call) => {
                let mut s = String::from_str("lowering does not handle calls");
                s
            },
            LowerError::Unsupported(Unlowered::Number) => {
                let mut s = String::from_str("lowering does not handle typed numbers");
                s
            },
            LowerError::DuplicateFunction(n) => {
                let mut s = String::from_str("Function named '");
                let d = debug_string(n);
                s.append(d.as_str());
                s.append("' already exists");
                s
            },
            LowerError::TooManyBlocks => {
                let mut s = String::from_str("attempt to subtract with overflow");
                s
            },
            LowerError::Invalid(i, e) => {
                let mut s = String::from_str("VIR verification failed for function #");
                push_decimal(&mut s, *i as u128);
                s.append(" ('global'): ");
                let m = e.message();
                s.append(m.as_str());
                s
            },
        }
    }
}

/// The text of a parse error.
pub open spec fn parse_error_text(e: ParseError) -> Seq<char> {
    match e {
        ParseError::ExpectedIdentifier => "Expected identifier in let statement"@,
        ParseError::ExpectedAssign => "Expected assign (=) in let statement"@,
        ParseError::UnexpectedToken(t) => "Unexpected token "@ + option_token_debug(t),
    }
}

impl ParseError {
    /// The text of this error, as `parse_error_text` gives it.
    pub fn message(&self) -> (r: String)
        ensures
            r@ == parse_error_text(*self),
    {
        match self {
            ParseError::ExpectedIdentifier => {
                let mut s = String::from_str("Expected identifier in let statement");
                s
            },
            ParseError::ExpectedAssign => {
                let mut s = String::from_str("Expected assign (=) in let statement");
                s
            },
            ParseError::UnexpectedToken(t) => {
                let mut s = String::from_str("Unexpected token ");
                push_option_token_debug(&mut s, t);
                s
            },
        }
    }
}

/// The text of a lexing error.
pub open spec fn lex_error_text(e: LexError) -> Seq<char> {
    match e {
        LexError::UnterminatedComment => "Unterminated multiline comment"@,
        LexError::UnterminatedString => "Unterminated string literal"@,
    }
}

impl LexError {
    /// The text of this error, as `lex_error_text` gives it.
    pub fn message(&self) -> (r: String)
        ensures
            r@ == lex_error_text(*self),
    {
        match self {
            LexError::UnterminatedComment => String::from_str("Unterminated multiline comment"),
            LexError::UnterminatedString => String::from_str("Unterminated string literal"),
        }
    }
}

} // verus!
