use rnr::source::strip_comments;
use rnr::ast::{Expr, ExprKind, Literal, Prog};
use rnr::diagnostic::Severity;
use rnr::error::{Error, VmError};
use rnr::intrinsics::split_placeholders;
use rnr::parse::try_parse;
use rnr::pipeline::{compile_impl, frontend, interpret, run_program};
use rnr::vm::{Val, VM};

fn prog(src: &str) -> Prog {
    try_parse::<Prog>(src).unwrap()
}

#[test]
fn wasm_compile_success() {
    let result = compile_impl(
        r#"
        fn main() -> i32 {
            println!("test");
            println!("stdout");
            1 + 2
        }
        "#,
    );
    assert!(result.diagnostics.is_empty());
    assert_eq!(result.result.as_deref(), Some("3"));
    assert_eq!(result.stdout.as_deref(), Some("test\nstdout\n"));
}

#[test]
fn println_fills_placeholders() {
    let p = prog(r#"fn main() { let a = 1; println!("a = {} and another a = {:?}", a, a + 1); }"#);
    let (v, out) = run_program(&p).unwrap();
    assert!(v.same(&rnr::vm::Val::Lit(rnr::ast::Literal::Unit)));
    assert_eq!(out, "a = 1 and another a = 2\n");
}

#[test]
fn println_drops_unfilled_placeholders() {
    let p = prog(r#"fn main() { println!("x {} y {} z", 7); println!("{}", "s", 3); }"#);
    let (_, out) = run_program(&p).unwrap();
    assert_eq!(out, "x 7 y \n\"s\"\n");
}

#[test]
fn split_at_placeholders() {
    let parts = split_placeholders("a {} b {:?} c{");
    assert_eq!(parts, vec!["a ".to_string(), " b ".to_string(), " c{".to_string()]);
    assert_eq!(split_placeholders(""), vec!["".to_string()]);
}

#[test]
fn compile_reports_type_errors() {
    let result = compile_impl("fn main() -> i32 { let x: i32 = true; y }");
    assert_eq!(result.diagnostics.0.len(), 2);
    assert_eq!(result.diagnostics.0[0].message, "mismatched types: expected `i32`, got `bool`");
    assert_eq!(result.diagnostics.0[0].related.len(), 2);
    assert_eq!(result.diagnostics.0[1].message, "cannot find variable `y` in this scope");
    assert!(result.ast.is_some());
    assert!(result.result.is_none());
}

#[test]
fn compile_reports_parse_error() {
    let result = compile_impl("fn main() { let }");
    assert_eq!(result.diagnostics.0.len(), 1);
    assert_eq!(result.diagnostics.0[0].message, "expected an identifier");
    assert_eq!(result.diagnostics.0[0].severity, Severity::Error);
    assert!(result.ast.is_none());
}

#[test]
fn compile_reports_runtime_error() {
    let result = compile_impl("fn main() -> i32 { 1 / 0 }");
    assert_eq!(result.diagnostics.0.len(), 1);
    assert_eq!(result.diagnostics.0[0].message, "attempt to divide by zero");
    assert!(result.ast.is_some());
}

#[test]
fn frontend_accepts_and_rejects() {
    assert!(frontend("fn main() -> i32 { 1 }").is_ok());
    assert!(matches!(frontend("fn main() -> i32 { true }"), Err(Error::Type(_))));
    assert!(matches!(frontend("fn main( {"), Err(Error::Parse(_))));
    assert!(matches!(frontend("fn f() {} fn f() {} fn main() {}"), Err(Error::Type(_))));
}

#[test]
fn interpret_errors() {
    let no_main = prog("fn f() {}");
    assert!(matches!(interpret(&no_main), Err(Error::Vm(VmError::NoMainFound))));
    let overflow = prog("fn main() -> i32 { 2147483647 + 1 }");
    assert!(matches!(interpret(&overflow), Err(Error::Vm(VmError::Overflow))));
    let neg = prog("fn main() -> i32 { -(0 - 2147483647 - 1) }");
    assert!(matches!(interpret(&neg), Err(Error::Vm(VmError::Overflow))));
    let arity = prog("fn f(a: i32) -> i32 { a } fn main() -> i32 { f(1, 2) }");
    assert!(matches!(interpret(&arity), Err(Error::Vm(VmError::ParameterArityMismatch { .. }))));
    let unknown = prog("fn main() -> i32 { g() }");
    assert!(matches!(interpret(&unknown), Err(Error::Vm(VmError::NoFunctionFound(_)))));
    let illegal = prog("fn main() { 1 = 2; }");
    match interpret(&illegal) {
        Err(Error::Vm(VmError::IllegalAssignment(text))) => assert_eq!(text, "1"),
        other => panic!("unexpected {:?}", other),
    }
    let unbound = prog("fn main() { x = 2; }");
    assert!(matches!(interpret(&unbound), Err(Error::Vm(VmError::NoValFound(_)))));
    let not_bool = prog("fn main() { if 1 { 2 } else { 3 } }");
    assert!(matches!(interpret(&not_bool), Err(Error::Vm(VmError::TypeMismatch { .. }))));
}

#[test]
fn budget_stops_endless_loops() {
    let p = prog("fn main() { while true { } }");
    let mut vm = VM::with_fuel(1000);
    assert!(matches!(vm.eval_prog(&p), Err(Error::Vm(VmError::OutOfFuel))));
    let r = prog("fn f(n: i32) -> i32 { f(n) } fn main() -> i32 { f(1) }");
    let mut vm = VM::with_fuel(50);
    assert!(matches!(vm.eval_prog(&r), Err(Error::Vm(VmError::OutOfFuel))));
}

#[test]
fn budget_does_not_change_results() {
    let p = prog("fn main() -> i32 { let mut i = 0; while i < 10 { i = i + 1; } i }");
    let mut small = VM::with_fuel(10);
    let mut large = VM::new();
    assert_eq!(small.eval_prog(&p).unwrap().get_int().unwrap(), 10);
    assert_eq!(large.eval_prog(&p).unwrap().get_int().unwrap(), 10);
    let mut tiny = VM::with_fuel(9);
    assert!(matches!(tiny.eval_prog(&p), Err(Error::Vm(VmError::OutOfFuel))));
}

#[test]
fn division_truncates_toward_zero() {
    let p = prog("fn main() -> i32 { (0 - 7) / 2 }");
    assert_eq!(interpret(&p).unwrap().get_int().unwrap(), -3);
}

#[test]
fn equality_compares_any_values() {
    let p = prog(r#"fn main() -> bool { "a" == "a" }"#);
    assert!(interpret(&p).unwrap().get_bool().unwrap());
}

#[test]
fn recursion_computes() {
    let p = prog("fn sum(n: i32) -> i32 { if n == 0 { 0 } else { n + sum(n - 1) } } fn main() -> i32 { sum(10) }");
    assert_eq!(interpret(&p).unwrap().get_int().unwrap(), 55);
}

#[test]
fn mutable_parameters_can_be_assigned() {
    let p = prog("fn f(mut a: i32) -> i32 { a = a + 1; a } fn main() -> i32 { f(41) }");
    assert_eq!(interpret(&p).unwrap().get_int().unwrap(), 42);
}

#[test]
fn vm_error_messages() {
    assert_eq!(VmError::NoMainFound.to_string(), "No Main function found");
    assert_eq!(VmError::NoValFound("x".to_string()).to_string(), "Failed to find Val with id x");
    let e = VmError::ParameterArityMismatch { id: "f".to_string(), expected: 1, got: 2 };
    assert_eq!(e.to_string(), "Function f expected 1 parameters, got 2");
}

#[test]
fn strip_comments_removes_comments_and_blank_lines() {
    let src = "// leading comment\nfn main() -> i32 { // opens\n\n    1 + 2   // sum\n}\n   // indented comment\n";
    assert_eq!(strip_comments(src), "fn main() -> i32 {\n    1 + 2\n}");
    assert_eq!(strip_comments(""), "");
    assert_eq!(strip_comments("a\r\nb\r\n"), "a\nb");
    assert_eq!(strip_comments("x / y // half"), "x / y");
}

#[test]
fn err_range_text() {
    let r = rnr::error::ErrRange { start_line: 1, start_column: 4, end_line: 2, end_column: 10 };
    assert_eq!(r.to_string(), "l1, c4 to l2, c10");
}

#[test]
fn conversions_into_literals_and_values() {
    assert_eq!(Literal::from(3), Literal::Int(3));
    assert_eq!(Literal::from(true), Literal::Bool(true));
    assert_eq!(Literal::from(()), Literal::Unit);
    assert_eq!(Literal::from("s".to_string()), Literal::String("s".to_string()));
    let e: Expr = ExprKind::Lit(Literal::Int(0)).into();
    assert_eq!(e.to_string(), "0");
    assert_eq!(Val::from(5).to_string(), "5");
    assert_eq!(Val::from(false).to_string(), "false");
    assert_eq!(Val::from(()).to_string(), "()");
    assert_eq!(Val::from(Literal::Int(2)).to_string(), "2");
}

#[test]
fn defaults_start_empty() {
    let vm_env: rnr::env::Env = Default::default();
    assert_eq!(vm_env.values.len(), 1);
    let tc: rnr::type_check::TypeChecker = Default::default();
    assert!(tc.errors.is_empty());
    let cg: rnr::code_gen::CodegenVm = Default::default();
    assert!(cg.instructions().is_empty());
    let g: rnr::dot::DotGenerator = Default::default();
    let _ = g;
}

#[test]
fn regex_test() {
    // The format string is split at `{}` and at `{:?}`.
    let parts = split_placeholders("a {} b {:?} c");
    println!("{:?}", parts);
    assert_eq!(parts, vec!["a ", " b ", " c"]);
}

#[test]
fn println_gives_unit_whatever_its_arguments() {
    let p = prog("fn main() { println!(1); println!(\"{} and {}\", 1, true) }");
    let (v, out) = run_program(&p).unwrap();
    assert_eq!(v.to_string(), "()");
    assert_eq!(out, "1 and true\n");
}

#[test]
fn function_result_mismatch_names_body_type_as_expected() {
    match frontend("fn main() { 1 + 2 }") {
        Err(e) => assert_eq!(e.to_string(), "Type mismatch: expected i32, got ()"),
        Ok(_) => panic!("a unit function whose body is an integer must be refused"),
    }
}

#[test]
fn failed_call_leaves_the_machine() {
    let p = prog("fn main() { println!(\"a\"); g(1) }");
    let mut vm = VM::new();
    assert!(matches!(vm.eval_prog(&p), Err(Error::Vm(VmError::NoFunctionFound(_)))));
    assert_eq!(vm.stdout(), "a\n");
}

#[test]
fn declared_type_note_points_at_the_annotation() {
    let result = compile_impl("fn main() -> i32 { let x: i32 = true; x }");
    let d = &result.diagnostics.0[0];
    let expected_note = &d.related[0];
    let range = expected_note.range.unwrap();
    assert_eq!((range.start_line, range.start_column), (1, 26));
}

#[test]
fn lookup_value_mut_changes_the_innermost_binding() {
    let mut env = rnr::env::Env::new();
    env.define_value("x", Val::from(1));
    env.push_scope();
    env.define_value("y", Val::from(2));
    {
        let (i, scope) = env.lookup_value_mut("x").unwrap();
        assert_eq!(i, 0);
        scope.insert("x".to_string(), Val::from(5));
    }
    assert_eq!(env.lookup_value("x").unwrap().to_string(), "5");
    assert!(env.lookup_value_mut("z").is_none());
}
