use velocity::analysis::{try_check_stmt_types, ArithOp};
use velocity::grammar::{Expr, FnDecl, Stmt, TypeEnv, TypeKind};
use velocity::lexer::tokenize;
use velocity::lower::{
    check_function_names, finish_lowering, lower_expr_to_vir, lower_program, lower_stmt_to_vir,
    parse_number_literal, try_lower_program, try_parse_number_literal, LocalBinding, LowerCtx,
    LowerError, Unlowered,
};
use velocity::parser::parse_program;
use velocity::ppv::format_inst;
use velocity::verify::VerifyError;
use velocity::vir::{
    BlockId, Constant, InstId, Item, ParamId, Program, ValueId, Vir, VirFunction,
};

fn s(x: &str) -> String {
    String::from(x)
}

fn n(x: &str) -> Expr {
    Expr::NumberLiteral(s(x))
}

fn bx(e: Expr) -> Box<Expr> {
    Box::new(e)
}

/// Lexes, parses and type checks `src` into a program.
fn checked_program(src: &str) -> Program {
    let (tokens, unknown) = tokenize(src.chars().collect()).unwrap();
    assert_eq!(unknown, None);
    let stmts = parse_program(tokens).unwrap();
    let mut env = TypeEnv::new();
    let mut items = Vec::new();
    for mut stmt in stmts {
        try_check_stmt_types(&mut stmt, &mut env).unwrap();
        items.push(Item::Stmt(stmt));
    }
    Program { items }
}

fn program(stmts: Vec<Stmt>) -> Program {
    Program { items: stmts.into_iter().map(Item::Stmt).collect() }
}

/// The printed form of a function, one line per block label or instruction.
fn dump(func: &VirFunction) -> Vec<String> {
    let mut lines = Vec::new();
    for (i, block) in func.blocks.iter().enumerate() {
        lines.push(format!("b{}:", i));
        for id in &block.insts {
            lines.push(format!("  {}", format_inst(func, *id)));
        }
    }
    lines
}

fn lowered(src: &str) -> Vir {
    try_lower_program(&checked_program(src)).unwrap()
}

#[test]
fn lowers_arithmetic_and_print() {
    let vir = lowered("let x = 1 + 2\nprint(x)");
    assert_eq!(vir.functions.len(), 1);
    let f = &vir.functions[0];
    assert_eq!(f.name, "global");
    assert_eq!(
        dump(f),
        vec![
            "b0:",
            "  i0:i64 = const 1",
            "  i1:i64 = const 2",
            "  i2:i64 = add i0, i1",
            "  print i2",
            "  return",
        ]
    );
}

#[test]
fn lowers_subtraction_negation_and_strings() {
    let vir = lowered("let a = 5 - -2\nprint(\"done\")");
    assert_eq!(
        dump(&vir.functions[0]),
        vec![
            "b0:",
            "  i0:i64 = const 5",
            "  i1:i64 = const 2",
            "  i2:i64 = neg i1",
            "  i3:i64 = sub i0, i2",
            "  i4:string = const \"done\"",
            "  print i4",
            "  return",
        ]
    );
}

#[test]
fn lowers_if_else_into_blocks() {
    let vir = lowered("let a = if true { 100 } else { 50 }\nprint(a)");
    assert_eq!(
        dump(&vir.functions[0]),
        vec![
            "b0:",
            "  i0:bool = const true",
            "  branch i0, b1, b2",
            "b1:",
            "  i2:i64 = const 0",
            "  i3:i64 = const 100",
            "  jump b3[i3]",
            "b2:",
            "  i5:i64 = const 0",
            "  i6:i64 = const 50",
            "  jump b3[i6]",
            "b3:",
            "  print p0",
            "  return",
        ]
    );
    let f = &vir.functions[0];
    assert_eq!(f.blocks[3].params, vec![ParamId(0)]);
    assert_eq!(f.block_params[0].block, BlockId(3));
    assert_eq!(f.block_params[0].ty, TypeKind::I64);
}

#[test]
fn if_else_with_prints_verifies() {
    let vir = lowered("if true { print(\"is true\") } else { print(\"is false\") }");
    assert_eq!(vir.functions[0].blocks.len(), 4);
}

#[test]
fn if_without_else_fails_the_vir_check() {
    let r = try_lower_program(&checked_program("if true { print(1) }"));
    assert!(matches!(
        r,
        Err(LowerError::Invalid(
            0,
            VerifyError::JumpArgType {
                inst: InstId(7),
                target: BlockId(3),
                arg_ty: TypeKind::I32,
                param: ParamId(0),
                param_ty: TypeKind::I64,
            }
        ))
    ));
}

#[test]
fn mutable_variable_is_rebound_on_assignment() {
    let vir = lowered("let mut x = 1\nx = 2\nprint(x)");
    assert_eq!(
        dump(&vir.functions[0]),
        vec!["b0:", "  i0:i64 = const 1", "  i1:i64 = const 2", "  print i1", "  return"]
    );
}

#[test]
fn declared_types_reach_the_constants() {
    let p = program(vec![Stmt::Let(s("x"), n("7"), false, Some(TypeKind::U8))]);
    let vir = try_lower_program(&p).unwrap();
    assert_eq!(dump(&vir.functions[0]), vec!["b0:", "  i0:u8 = const 7", "  return"]);
}

#[test]
fn block_return_in_global_code_fails_the_vir_check() {
    let p = program(vec![Stmt::Let(
        s("x"),
        Expr::Block(vec![Stmt::Return(n("4")), Stmt::ExprStmt(n("9"))]),
        false,
        Some(TypeKind::I64),
    )]);
    assert!(matches!(
        try_lower_program(&p),
        Err(LowerError::Invalid(
            0,
            VerifyError::ReturnValueInVoid { inst: InstId(2), ty: TypeKind::I64 }
        ))
    ));
    let mut ctx = LowerCtx::new_global();
    let v = lower_expr_to_vir(
        &mut ctx,
        &Expr::Block(vec![Stmt::Return(n("4")), Stmt::ExprStmt(n("9"))]),
        None,
    )
    .unwrap();
    assert_eq!(v, ValueId::Inst(InstId(1)));
    assert_eq!(
        dump(&ctx.func),
        vec!["b0:", "  i0:i64 = const 0", "  i1:i64 = const 4", "  return i1"]
    );
}

#[test]
fn lower_program_of_empty_program() {
    let vir = lower_program(&Program { items: vec![] });
    assert_eq!(dump(&vir.functions[0]), vec!["b0:", "  return"]);
}

#[test]
fn top_level_let_needs_a_type() {
    let p = program(vec![Stmt::Let(s("x"), n("1"), false, None)]);
    assert!(matches!(try_lower_program(&p), Err(LowerError::MissingLetType(ref x)) if x == "x"));
}

#[test]
fn block_let_needs_a_type() {
    let p = program(vec![Stmt::ExprStmt(Expr::Block(vec![Stmt::Let(s("y"), n("1"), false, None)]))]);
    assert!(matches!(try_lower_program(&p), Err(LowerError::BlockLetMissingType(ref y)) if y == "y"));
}

#[test]
fn let_value_of_another_type() {
    let p = program(vec![
        Stmt::Let(s("y"), n("1"), false, Some(TypeKind::I64)),
        Stmt::Let(s("x"), Expr::Var(s("y")), false, Some(TypeKind::I8)),
    ]);
    assert!(matches!(
        try_lower_program(&p),
        Err(LowerError::LetTypeMismatch(ref x, TypeKind::I8, TypeKind::I64)) if x == "x"
    ));
}

#[test]
fn unknown_variable() {
    let p = program(vec![Stmt::Print(Expr::Var(s("nope")))]);
    assert!(matches!(try_lower_program(&p), Err(LowerError::UnknownVariable(ref x)) if x == "nope"));
    let q = program(vec![Stmt::Reassign(s("nope"), n("1"))]);
    assert!(matches!(try_lower_program(&q), Err(LowerError::UnknownVariable(_))));
}

#[test]
fn reassigning_an_immutable_variable() {
    let p = program(vec![
        Stmt::Let(s("x"), n("1"), false, Some(TypeKind::I64)),
        Stmt::Reassign(s("x"), n("2")),
    ]);
    assert!(matches!(
        try_lower_program(&p),
        Err(LowerError::ReassignImmutable(ref x, false)) if x == "x"
    ));
    let q = program(vec![
        Stmt::Let(s("x"), n("1"), false, Some(TypeKind::I64)),
        Stmt::ExprStmt(Expr::Block(vec![Stmt::Reassign(s("x"), n("2"))])),
    ]);
    assert!(matches!(
        try_lower_program(&q),
        Err(LowerError::ReassignImmutable(ref x, true)) if x == "x"
    ));
}

#[test]
fn assigning_a_value_of_another_type() {
    let p = program(vec![
        Stmt::Let(s("b"), Expr::Bool(true), false, Some(TypeKind::Bool)),
        Stmt::Let(s("x"), n("1"), true, Some(TypeKind::I64)),
        Stmt::Reassign(s("x"), Expr::Var(s("b"))),
    ]);
    assert!(matches!(
        try_lower_program(&p),
        Err(LowerError::AssignTypeMismatch(ref x, TypeKind::Bool, TypeKind::I64)) if x == "x"
    ));
}

#[test]
fn literal_errors() {
    let p = program(vec![Stmt::Let(s("x"), n("1"), false, Some(TypeKind::Bool))]);
    assert!(matches!(try_lower_program(&p), Err(LowerError::NonNumericLiteral(TypeKind::Bool))));
    let q = program(vec![Stmt::Let(s("x"), n("300"), false, Some(TypeKind::I8))]);
    assert!(matches!(
        try_lower_program(&q),
        Err(LowerError::InvalidLiteral(ref t, TypeKind::I8)) if t == "300"
    ));
    let r = program(vec![Stmt::Let(s("x"), Expr::String(s("a")), false, Some(TypeKind::I64))]);
    assert!(matches!(try_lower_program(&r), Err(LowerError::StringTypeMismatch(TypeKind::I64))));
    let t = program(vec![Stmt::Let(s("x"), Expr::Bool(true), false, Some(TypeKind::String))]);
    assert!(matches!(try_lower_program(&t), Err(LowerError::BoolTypeMismatch(TypeKind::String))));
}

#[test]
fn operand_type_mismatch() {
    let p = program(vec![
        Stmt::Let(s("b"), Expr::Bool(true), false, Some(TypeKind::Bool)),
        Stmt::Print(Expr::Add(bx(n("1")), bx(Expr::Var(s("b"))))),
    ]);
    assert!(matches!(
        try_lower_program(&p),
        Err(LowerError::OperandMismatch(ArithOp::Add, TypeKind::I64, TypeKind::Bool, TypeKind::I64))
    ));
}

#[test]
fn lowers_multiplication_and_division() {
    let vir = lowered("let x: i32 = 6 * 7 / 2\nprint(x)");
    assert_eq!(
        dump(&vir.functions[0]),
        vec![
            "b0:",
            "  i0:i32 = const 6",
            "  i1:i32 = const 7",
            "  i2:i32 = mul i0, i1",
            "  i3:i32 = const 2",
            "  i4:i32 = div i2, i3",
            "  print i4",
            "  return",
        ]
    );
}

#[test]
fn lowers_a_product_in_a_fresh_context() {
    let mut ctx = LowerCtx::new_global();
    let v = lower_expr_to_vir(&mut ctx, &Expr::Mul(bx(n("2")), bx(n("3"))), None).unwrap();
    assert_eq!(v, ValueId::Inst(InstId(2)));
    assert_eq!(
        dump(&ctx.func),
        vec!["b0:", "  i0:i64 = const 2", "  i1:i64 = const 3", "  i2:i64 = mul i0, i1"]
    );
}

#[test]
fn product_operands_must_agree() {
    let p = program(vec![
        Stmt::Let(s("b"), Expr::Bool(true), false, Some(TypeKind::Bool)),
        Stmt::Print(Expr::Div(bx(Expr::Var(s("b"))), bx(Expr::Var(s("b"))))),
        Stmt::Print(Expr::Mul(bx(n("1")), bx(Expr::Var(s("b"))))),
    ]);
    assert!(matches!(
        try_lower_program(&p),
        Err(LowerError::OperandMismatch(ArithOp::Mul, TypeKind::I64, TypeKind::Bool, TypeKind::I64))
    ));
}

#[test]
fn unsupported_expressions() {
    let r = program(vec![Stmt::Print(Expr::Call(bx(Expr::Var(s("f"))), vec![]))]);
    assert!(matches!(try_lower_program(&r), Err(LowerError::Unsupported(Unlowered::Call))));
    let q = program(vec![Stmt::Print(Expr::Number(velocity::grammar::NumericKind::I8(1)))]);
    assert!(matches!(try_lower_program(&q), Err(LowerError::Unsupported(Unlowered::Number))));
}

#[test]
fn lowering_works_beside_blocks_that_list_unknown_instructions() {
    let mut ctx = LowerCtx::new_global();
    ctx.func.new_block();
    ctx.func.blocks[1].insts.push(InstId(40));
    let v = lower_expr_to_vir(&mut ctx, &n("5"), None).unwrap();
    assert_eq!(v, ValueId::Inst(InstId(0)));
    lower_stmt_to_vir(&mut ctx, &Stmt::Print(Expr::Var(s("missing")))).unwrap_err();
    lower_stmt_to_vir(&mut ctx, &Stmt::Let(s("y"), n("1"), false, Some(TypeKind::U8))).unwrap();
    assert_eq!(ctx.func.blocks[0].insts, vec![InstId(0), InstId(1)]);
    assert_eq!(ctx.func.blocks[1].insts, vec![InstId(40)]);
}

#[test]
fn duplicate_function_names() {
    let f = || FnDecl { name: s("f"), params: vec![], body: vec![], return_type: None };
    let p = Program { items: vec![Item::Function(f()), Item::Function(f())] };
    assert!(matches!(check_function_names(&p), Err(LowerError::DuplicateFunction(ref x)) if x == "f"));
    assert!(matches!(try_lower_program(&p), Err(LowerError::DuplicateFunction(_))));
    let q = Program { items: vec![Item::Function(f())] };
    assert!(check_function_names(&q).is_ok());
}

#[test]
fn a_value_that_is_not_a_value() {
    let mut ctx = LowerCtx::new_global();
    ctx.locals.insert(
        s("x"),
        LocalBinding { value: ValueId::Inst(InstId(9)), ty: TypeKind::I64, mutable: false },
    );
    let r = lower_expr_to_vir(&mut ctx, &Expr::Negate(bx(Expr::Var(s("x")))), None);
    assert!(matches!(r, Err(LowerError::NotAValue(ValueId::Inst(InstId(9))))));
}

#[test]
fn stepwise_lowering_matches_whole_program() {
    let mut ctx = LowerCtx::new_global();
    lower_stmt_to_vir(&mut ctx, &Stmt::Let(s("x"), n("3"), false, Some(TypeKind::I32))).unwrap();
    let v = lower_expr_to_vir(&mut ctx, &Expr::Var(s("x")), None).unwrap();
    assert_eq!(v, ValueId::Inst(InstId(0)));
    lower_stmt_to_vir(&mut ctx, &Stmt::Print(Expr::Var(s("x")))).unwrap();
    assert_eq!(ctx.current_block, BlockId(0));
    let vir = finish_lowering(ctx).unwrap();
    assert_eq!(
        dump(&vir.functions[0]),
        vec!["b0:", "  i0:i32 = const 3", "  print i0", "  return"]
    );
}

#[test]
fn number_literals_by_type() {
    assert_eq!(parse_number_literal(&s("-128"), &TypeKind::I8), Constant::I8(-128));
    assert_eq!(parse_number_literal(&s("65535"), &TypeKind::U16), Constant::U16(65535));
    assert_eq!(
        parse_number_literal(&s("18446744073709551615"), &TypeKind::U64),
        Constant::U64(u64::MAX)
    );
    assert_eq!(parse_number_literal(&s("+12"), &TypeKind::I32), Constant::I32(12));
    assert_eq!(parse_number_literal(&s("2.5"), &TypeKind::F32), Constant::F32(s("2.5")));
    assert_eq!(parse_number_literal(&s("1e3"), &TypeKind::F64), Constant::F64(s("1e3")));
    assert!(matches!(
        try_parse_number_literal(&s("-1"), TypeKind::U32),
        Err(LowerError::InvalidLiteral(_, TypeKind::U32))
    ));
    assert!(matches!(
        try_parse_number_literal(&s("1.5."), TypeKind::F64),
        Err(LowerError::InvalidLiteral(_, TypeKind::F64))
    ));
    assert!(matches!(
        try_parse_number_literal(&s("1"), TypeKind::Unit),
        Err(LowerError::NonNumericLiteral(TypeKind::Unit))
    ));
    assert!(matches!(
        try_parse_number_literal(&s("9223372036854775808"), TypeKind::I64),
        Err(LowerError::InvalidLiteral(_, TypeKind::I64))
    ));
    assert_eq!(
        try_parse_number_literal(&s("-9223372036854775808"), TypeKind::I64).unwrap(),
        Constant::I64(i64::MIN)
    );
}

#[test]
fn float_literals_agree_with_std_parsing() {
    for text in ["1", "1.", ".5", "1e5", "1E-5", "+inf", "NaN", "infinity", "1e", "e5", ".", "1.5e+", "-0.0", "12ab"] {
        let ours = try_parse_number_literal(&s(text), TypeKind::F64).is_ok();
        assert_eq!(ours, text.parse::<f64>().is_ok(), "{}", text);
        let ours32 = try_parse_number_literal(&s(text), TypeKind::F32).is_ok();
        assert_eq!(ours32, text.parse::<f32>().is_ok(), "{}", text);
    }
}

#[test]
fn integer_literals_agree_with_std_parsing() {
    for text in ["0", "-0", "+0", "127", "128", "-128", "-129", "00012", "1_000", "", "-", "+", "12a"] {
        assert_eq!(
            try_parse_number_literal(&s(text), TypeKind::I8).ok(),
            text.parse::<i8>().ok().map(Constant::I8),
            "{}",
            text
        );
        assert_eq!(
            try_parse_number_literal(&s(text), TypeKind::U8).ok(),
            text.parse::<u8>().ok().map(Constant::U8),
            "{}",
            text
        );
    }
}
