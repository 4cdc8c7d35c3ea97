use velocity::analysis::try_check_stmt_types;
use velocity::grammar::TypeEnv;
use velocity::lexer::tokenize;
use velocity::lower::{try_lower_program, try_parse_number_literal};
use velocity::parser::parse_program;
use velocity::ppv::format_inst;
use velocity::verify::{verify_function, verify_vir};
use velocity::vir::{BlockId, Constant, Inst, Item, Program, ValueInst, ValueInstKind, VirFunction};

#[test]
fn new_function_with_final_return_verifies() {
    let mut f = VirFunction::new(String::from("anything"));
    f.ensure_final_return();
    assert_eq!(verify_function(&f), Ok(()));
}

#[test]
fn lowered_programs_pass_the_vir_check() {
    let sources = [
        "let base = 10\nlet mut x = 0\nx = base + 3\nprint(x - 1)",
        "let a = if true { 100 } else { 50 }",
        "if false { print(\"no\") } else { print(\"yes\") }",
        "let s = \"text\"\nprint(s)\nlet t = true\nprint(t)",
        "let n = -4 - 9",
        "let a: u8 = 6\nlet mut b = 2 * 3 / 1\nb = b - -1\nprint(a * a)\nprint(b)",
        "let f: f64 = 1.5 * 2.0\nlet g = f / f",
    ];
    for src in sources {
        let (tokens, unknown) = tokenize(src.chars().collect()).unwrap();
        assert_eq!(unknown, None);
        let mut env = TypeEnv::new();
        let mut items = Vec::new();
        for mut stmt in parse_program(tokens).unwrap() {
            try_check_stmt_types(&mut stmt, &mut env).unwrap();
            items.push(Item::Stmt(stmt));
        }
        let vir = try_lower_program(&Program { items }).unwrap();
        assert_eq!(verify_vir(&vir), Ok(()), "{}", src);
    }
}

fn printed_constant(c: Constant) -> String {
    let ty = c.ty();
    let mut f = VirFunction::new(String::from("f"));
    let id = f.append_inst(
        BlockId(0),
        Inst::Value(ValueInst { kind: ValueInstKind::Const { value: c }, ty }),
    );
    let line = format_inst(&f, id);
    let prefix = format!("i0:{} = const ", velocity::ppv::format_type(&ty));
    line.strip_prefix(&prefix).unwrap().to_string()
}

#[test]
fn printed_integers_read_back() {
    let constants = vec![
        Constant::I8(i8::MIN),
        Constant::I8(-1),
        Constant::I16(i16::MAX),
        Constant::I32(-123456),
        Constant::I64(i64::MIN),
        Constant::I64(0),
        Constant::U8(u8::MAX),
        Constant::U16(40000),
        Constant::U32(u32::MAX),
        Constant::U64(u64::MAX),
    ];
    for c in constants {
        let text = printed_constant(c.clone());
        assert_eq!(try_parse_number_literal(&text, c.ty()).unwrap(), c);
    }
}

#[test]
fn printed_integers_match_to_string() {
    assert_eq!(printed_constant(Constant::I32(-7)), (-7i32).to_string());
    assert_eq!(printed_constant(Constant::U64(1234567890123)), 1234567890123u64.to_string());
    assert_eq!(printed_constant(Constant::I16(i16::MIN)), i16::MIN.to_string());
    assert_eq!(printed_constant(Constant::Bool(false)), false.to_string());
}
