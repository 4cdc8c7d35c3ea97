use velocity::analysis::{
    check_stmt_types, infer_type, resolve_declared_type, try_check_stmt_types, ArithOp, TypeError,
    Uninferable,
};
use velocity::grammar::{Expr, NumericKind, Stmt, TypeBinding, TypeEnv, TypeKind};

fn s(x: &str) -> String {
    String::from(x)
}

fn n(x: &str) -> Expr {
    Expr::NumberLiteral(s(x))
}

fn bx(e: Expr) -> Box<Expr> {
    Box::new(e)
}

fn env_with(name: &str, ty: TypeKind, mutable: bool) -> TypeEnv {
    let mut env = TypeEnv::new();
    let mut stmt = Stmt::Let(
        s(name),
        match ty {
            TypeKind::Bool => Expr::Bool(true),
            TypeKind::String => Expr::String(s("v")),
            _ => n("1"),
        },
        mutable,
        Some(ty),
    );
    try_check_stmt_types(&mut stmt, &mut env).unwrap();
    env
}

#[test]
fn number_literal_defaults_to_i64() {
    let env = TypeEnv::new();
    assert_eq!(infer_type(&n("5"), &env, None).unwrap(), TypeKind::I64);
    assert_eq!(infer_type(&n("5"), &env, Some(TypeKind::Unit)).unwrap(), TypeKind::I64);
}

#[test]
fn number_literal_takes_the_expected_type() {
    let env = TypeEnv::new();
    assert_eq!(infer_type(&n("200"), &env, Some(TypeKind::U8)).unwrap(), TypeKind::U8);
    assert_eq!(infer_type(&n("2.5"), &env, Some(TypeKind::F64)).unwrap(), TypeKind::F64);
}

#[test]
fn literal_that_does_not_fit_is_an_error() {
    let env = TypeEnv::new();
    assert!(matches!(
        infer_type(&n("300"), &env, Some(TypeKind::I8)),
        Err(TypeError::LiteralDoesNotFit(ref t, TypeKind::I8)) if t == "300"
    ));
    assert!(matches!(
        infer_type(&n("9223372036854775808"), &env, None),
        Err(TypeError::LiteralDoesNotFit(_, TypeKind::I64))
    ));
    assert!(matches!(
        infer_type(&n("1.5"), &env, Some(TypeKind::I32)),
        Err(TypeError::LiteralDoesNotFit(_, TypeKind::I32))
    ));
}

#[test]
fn literal_where_a_non_numeric_type_is_expected() {
    let env = TypeEnv::new();
    assert!(matches!(
        infer_type(&n("1"), &env, Some(TypeKind::Bool)),
        Err(TypeError::ExpectedNumeric(TypeKind::Bool))
    ));
}

#[test]
fn strings_and_bools_have_their_types() {
    let env = TypeEnv::new();
    assert_eq!(infer_type(&Expr::String(s("a")), &env, None).unwrap(), TypeKind::String);
    assert_eq!(infer_type(&Expr::Bool(false), &env, Some(TypeKind::I8)).unwrap(), TypeKind::Bool);
}

#[test]
fn if_else_has_the_type_of_its_branches() {
    let env = TypeEnv::new();
    let e = Expr::If {
        condition: bx(Expr::Bool(true)),
        then_branch: bx(Expr::Block(vec![Stmt::ExprStmt(n("100"))])),
        else_branch: Some(bx(Expr::Block(vec![Stmt::ExprStmt(n("50"))]))),
    };
    assert_eq!(infer_type(&e, &env, None).unwrap(), TypeKind::I64);
}

#[test]
fn if_without_else_is_unit() {
    let env = TypeEnv::new();
    let e = Expr::If {
        condition: bx(Expr::Bool(true)),
        then_branch: bx(Expr::Block(vec![Stmt::ExprStmt(n("1"))])),
        else_branch: None,
    };
    assert_eq!(infer_type(&e, &env, None).unwrap(), TypeKind::Unit);
}

#[test]
fn if_condition_must_be_bool() {
    let env = TypeEnv::new();
    let e = Expr::If {
        condition: bx(Expr::String(s("no"))),
        then_branch: bx(Expr::Block(vec![])),
        else_branch: None,
    };
    assert!(matches!(
        infer_type(&e, &env, None),
        Err(TypeError::NonBoolCondition(TypeKind::String))
    ));
}

#[test]
fn if_branches_must_agree() {
    let env = TypeEnv::new();
    let e = Expr::If {
        condition: bx(Expr::Bool(true)),
        then_branch: bx(Expr::Block(vec![Stmt::ExprStmt(n("1"))])),
        else_branch: Some(bx(Expr::Block(vec![Stmt::ExprStmt(Expr::Bool(false))]))),
    };
    assert!(matches!(
        infer_type(&e, &env, None),
        Err(TypeError::BranchMismatch(TypeKind::I64, TypeKind::Bool))
    ));
}

#[test]
fn block_types() {
    let env = TypeEnv::new();
    assert_eq!(infer_type(&Expr::Block(vec![]), &env, None).unwrap(), TypeKind::Unit);
    let printed = Expr::Block(vec![Stmt::ExprStmt(n("1")), Stmt::Print(n("2"))]);
    assert_eq!(infer_type(&printed, &env, None).unwrap(), TypeKind::Unit);
    let returned = Expr::Block(vec![
        Stmt::Return(Expr::Bool(true)),
        Stmt::ExprStmt(Expr::Var(s("undefined"))),
    ]);
    assert_eq!(infer_type(&returned, &env, None).unwrap(), TypeKind::Bool);
}

#[test]
fn negation_of_signed_and_unsigned() {
    let env = TypeEnv::new();
    assert_eq!(infer_type(&Expr::Negate(bx(n("5"))), &env, None).unwrap(), TypeKind::I64);
    assert!(matches!(
        infer_type(&Expr::Negate(bx(n("5"))), &env, Some(TypeKind::U8)),
        Err(TypeError::NegateUnsigned(TypeKind::U8))
    ));
    assert!(matches!(
        infer_type(&Expr::Negate(bx(Expr::Bool(true))), &env, None),
        Err(TypeError::NegateNonNumeric(TypeKind::Bool))
    ));
}

#[test]
fn variables_have_their_bound_type() {
    let env = env_with("x", TypeKind::U16, false);
    assert_eq!(infer_type(&Expr::Var(s("x")), &env, None).unwrap(), TypeKind::U16);
    assert!(matches!(
        infer_type(&Expr::Var(s("y")), &env, None),
        Err(TypeError::UndefinedVariable(ref name)) if name == "y"
    ));
}

#[test]
fn arithmetic_operands_must_agree() {
    let env = env_with("x", TypeKind::U16, false);
    assert_eq!(
        infer_type(&Expr::Add(bx(Expr::Var(s("x"))), bx(n("3"))), &env, Some(TypeKind::U16)).unwrap(),
        TypeKind::U16
    );
    assert!(matches!(
        infer_type(&Expr::Add(bx(Expr::Var(s("x"))), bx(n("3"))), &env, None),
        Err(TypeError::OperandMismatch(ArithOp::Add, TypeKind::U16, TypeKind::I64))
    ));
    assert!(matches!(
        infer_type(&Expr::Div(bx(n("1")), bx(Expr::Bool(true))), &env, None),
        Err(TypeError::OperandMismatch(ArithOp::Div, TypeKind::I64, TypeKind::Bool))
    ));
    assert_eq!(
        infer_type(&Expr::Mul(bx(n("2")), bx(n("3"))), &env, None).unwrap(),
        TypeKind::I64
    );
    assert!(matches!(
        infer_type(&Expr::Sub(bx(Expr::String(s("a"))), bx(n("3"))), &env, None),
        Err(TypeError::OperandMismatch(ArithOp::Sub, TypeKind::String, TypeKind::I64))
    ));
}

#[test]
fn calls_and_typed_numbers_cannot_be_inferred() {
    let env = TypeEnv::new();
    assert!(matches!(
        infer_type(&Expr::Call(bx(Expr::Var(s("f"))), vec![]), &env, None),
        Err(TypeError::CannotInfer(Uninferable::Call))
    ));
    assert!(matches!(
        infer_type(&Expr::Number(NumericKind::I8(1)), &env, None),
        Err(TypeError::CannotInfer(Uninferable::Number(NumericKind::I8(1))))
    ));
}

#[test]
fn let_gets_its_inferred_type_and_binds_it() {
    let mut env = TypeEnv::new();
    let mut stmt = Stmt::Let(s("base"), n("10"), false, None);
    check_stmt_types(&mut stmt, &mut env);
    assert_eq!(stmt, Stmt::Let(s("base"), n("10"), false, Some(TypeKind::I64)));
    assert_eq!(
        env.idents.get(&s("base")),
        Some(TypeBinding { ty: TypeKind::I64, mutable: false })
    );
}

#[test]
fn let_with_declared_type() {
    let mut env = TypeEnv::new();
    let mut stmt = Stmt::Let(s("x"), n("3"), false, Some(TypeKind::I8));
    try_check_stmt_types(&mut stmt, &mut env).unwrap();
    assert_eq!(stmt, Stmt::Let(s("x"), n("3"), false, Some(TypeKind::I8)));
    let mut unit = Stmt::Let(s("y"), Expr::Bool(true), true, Some(TypeKind::Unit));
    try_check_stmt_types(&mut unit, &mut env).unwrap();
    assert_eq!(unit, Stmt::Let(s("y"), Expr::Bool(true), true, Some(TypeKind::Bool)));
    assert_eq!(env.idents.get(&s("y")), Some(TypeBinding { ty: TypeKind::Bool, mutable: true }));
}

#[test]
fn let_declared_type_must_match() {
    let mut env = TypeEnv::new();
    let mut stmt = Stmt::Let(s("x"), Expr::Bool(true), false, Some(TypeKind::I8));
    assert!(matches!(
        try_check_stmt_types(&mut stmt, &mut env),
        Err(TypeError::DeclaredMismatch(TypeKind::I8, TypeKind::Bool))
    ));
    assert_eq!(stmt, Stmt::Let(s("x"), Expr::Bool(true), false, Some(TypeKind::I8)));
    assert_eq!(env.idents.get(&s("x")), None);
}

#[test]
fn let_cannot_redeclare() {
    let mut env = env_with("x", TypeKind::I64, false);
    let mut stmt = Stmt::Let(s("x"), n("2"), false, None);
    assert!(matches!(
        try_check_stmt_types(&mut stmt, &mut env),
        Err(TypeError::Redeclared(ref name)) if name == "x"
    ));
}

#[test]
fn immutable_let_cannot_be_reassigned() {
    let mut env = env_with("x", TypeKind::I64, false);
    let mut stmt = Stmt::Reassign(s("x"), n("2"));
    assert!(matches!(
        try_check_stmt_types(&mut stmt, &mut env),
        Err(TypeError::ReassignImmutable(ref name)) if name == "x"
    ));
}

#[test]
fn mutable_let_can_be_reassigned() {
    let mut env = env_with("x", TypeKind::I64, true);
    let mut stmt = Stmt::Reassign(s("x"), n("2"));
    try_check_stmt_types(&mut stmt, &mut env).unwrap();
    assert_eq!(env.idents.get(&s("x")), Some(TypeBinding { ty: TypeKind::I64, mutable: true }));
}

#[test]
fn reassign_errors() {
    let mut env = env_with("x", TypeKind::I64, true);
    let mut undefined = Stmt::Reassign(s("z"), n("2"));
    assert!(matches!(
        try_check_stmt_types(&mut undefined, &mut env),
        Err(TypeError::ReassignUndefined(ref name)) if name == "z"
    ));
    let mut wrong = Stmt::Reassign(s("x"), Expr::String(s("no")));
    assert!(matches!(
        try_check_stmt_types(&mut wrong, &mut env),
        Err(TypeError::ReassignMismatch(ref name, TypeKind::I64)) if name == "x"
    ));
}

#[test]
fn expression_statement_of_unknown_identifier() {
    let mut env = TypeEnv::new();
    let mut stmt = Stmt::ExprStmt(Expr::Var(s("ghost")));
    assert!(matches!(
        try_check_stmt_types(&mut stmt, &mut env),
        Err(TypeError::IdentifierNotFound(ref name)) if name == "ghost"
    ));
}

#[test]
fn print_and_return_check_their_expression() {
    let mut env = TypeEnv::new();
    let mut print = Stmt::Print(Expr::Add(bx(n("1")), bx(n("2"))));
    try_check_stmt_types(&mut print, &mut env).unwrap();
    let mut ret = Stmt::Return(Expr::Var(s("nope")));
    assert!(matches!(
        try_check_stmt_types(&mut ret, &mut env),
        Err(TypeError::UndefinedVariable(_))
    ));
}

#[test]
fn resolve_declared_type_cases() {
    assert_eq!(resolve_declared_type(&TypeKind::Unit, &TypeKind::U32), TypeKind::U32);
    assert_eq!(resolve_declared_type(&TypeKind::I8, &TypeKind::I8), TypeKind::I8);
}

#[test]
fn declaring_the_inferred_type_changes_nothing() {
    let exprs = vec![
        Expr::Add(bx(n("1")), bx(n("2"))),
        Expr::Negate(bx(n("7"))),
        Expr::If {
            condition: bx(Expr::Bool(true)),
            then_branch: bx(Expr::Block(vec![Stmt::ExprStmt(n("5"))])),
            else_branch: None,
        },
        Expr::String(s("text")),
    ];
    for e in exprs {
        let mut env1 = TypeEnv::new();
        let t = infer_type(&e, &env1, None).unwrap();
        let mut plain = Stmt::Let(s("x"), clone_expr(&e), false, None);
        try_check_stmt_types(&mut plain, &mut env1).unwrap();
        let mut env2 = TypeEnv::new();
        let mut declared = Stmt::Let(s("x"), e, false, Some(t));
        try_check_stmt_types(&mut declared, &mut env2).unwrap();
        assert_eq!(plain, declared);
        assert_eq!(env1.idents.get(&s("x")), env2.idents.get(&s("x")));
    }
}

fn clone_expr(e: &Expr) -> Expr {
    match e {
        Expr::Add(l, r) => Expr::Add(bx(clone_expr(l)), bx(clone_expr(r))),
        Expr::Negate(i) => Expr::Negate(bx(clone_expr(i))),
        Expr::If { condition, then_branch, else_branch } => Expr::If {
            condition: bx(clone_expr(condition)),
            then_branch: bx(clone_expr(then_branch)),
            else_branch: else_branch.as_ref().map(|b| bx(clone_expr(b))),
        },
        Expr::Block(stmts) => Expr::Block(
            stmts
                .iter()
                .map(|st| match st {
                    Stmt::ExprStmt(x) => Stmt::ExprStmt(clone_expr(x)),
                    other => panic!("unexpected {:?}", other),
                })
                .collect(),
        ),
        Expr::NumberLiteral(t) => Expr::NumberLiteral(t.clone()),
        Expr::String(t) => Expr::String(t.clone()),
        Expr::Bool(b) => Expr::Bool(*b),
        other => panic!("unexpected {:?}", other),
    }
}
