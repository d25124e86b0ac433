use rnr::ast::{expr, Block, Expr, ExprKind, Literal, Prog, Type, UnOp};
use rnr::env::AnnotatedType;
use rnr::error::ErrRange;
use rnr::parse::{try_parse, Parse};
use rnr::type_check::{Ty, TypeChecker};
use rnr::vm::VM;

fn parse<T: Parse>(src: &str) -> T {
    try_parse::<T>(src).unwrap()
}

fn assert_type(e: &Expr, expected: Type) {
    let mut tc = TypeChecker::new();
    let t = tc.check_expr(e);
    assert!(tc.errors.is_empty(), "unexpected errors: {:?}", tc.errors);
    assert_eq!(t.ty, Some(expected));
}

fn assert_type_fail(e: &Expr) {
    let mut tc = TypeChecker::new();
    tc.check_expr(e);
    assert!(!tc.errors.is_empty());
}

fn block_type(src: &str) -> (Option<Type>, usize) {
    let b: Block = parse(src);
    let mut tc = TypeChecker::new();
    let t = tc.check_block(&b);
    (t.ty, tc.errors.len())
}

fn prog_type(src: &str) -> (Option<Type>, usize) {
    let p: Prog = parse(src);
    let mut tc = TypeChecker::new();
    let t = tc.check_prog(&p);
    (t.ty, tc.errors.len())
}

fn expr_type(src: &str) -> (Option<Type>, usize) {
    let e: Expr = parse(src);
    let mut tc = TypeChecker::new();
    let t = tc.check_expr(&e);
    (t.ty, tc.errors.len())
}

#[test]
fn type_check_tests_simple_ident() {
    let mut tc = TypeChecker::new();
    let a_ty = AnnotatedType::new(Ty::i32(), true, true, ErrRange::dummy());
    tc.env.define_binding("test", a_ty);
    let e = expr(ExprKind::Ident("test".to_string()));
    assert_eq!(tc.check_expr(&e).ty, Some(Type::i32()));
    assert!(tc.errors.is_empty());
}

#[test]
fn type_check_tests_simple_lit() {
    let unit: Expr = expr(ExprKind::Lit(Literal::Unit));
    let int: Expr = expr(ExprKind::Lit(Literal::Int(0)));
    let string: Expr = expr(ExprKind::Lit(Literal::String("".to_string())));
    let bool: Expr = expr(ExprKind::Lit(Literal::Bool(false)));

    assert_type(&unit, Type::unit());
    assert_type(&int, Type::i32());
    assert_type(&string, Type::string());
    assert_type(&bool, Type::bool());
}

#[test]
fn type_check_tests_simple_par() {
    let par: Expr = expr(ExprKind::Par(Box::new(expr(ExprKind::Lit(Literal::Bool(false))))));
    assert_type(&par, Type::bool());
}

#[test]
fn type_check_tests_simple_call() {
    let (t, errors) = block_type(
        r#"
            {
                fn add2(x: i32) -> i32 {
                    x+2
                }
                add2(0)
            }
            "#,
    );
    assert_eq!(errors, 0);
    assert_eq!(t, Some(Type::i32()));
}

#[test]
fn type_check_tests_simple_call_wrong_arg() {
    let (_, errors) = block_type(
        r#"
            {
                fn add2(x: i32) -> i32 {
                    x+2
                }
                add2("test")
            }
            "#,
    );
    assert!(errors > 0);
}

#[test]
fn type_check_tests_simple_if() {
    let (t, errors) = block_type(
        r#"
            {
                if true { () }
            }
            "#,
    );
    assert_eq!(errors, 0);
    assert_eq!(t, Some(Type::unit()));
}

#[test]
fn type_check_tests_simple_if_rtype_i32() {
    let (t, errors) = block_type(
        r#"{
                let x = if true {0} else {0}; 
                x
            }"#,
    );
    assert_eq!(errors, 0);
    assert_eq!(t, Some(Type::i32()));
}

#[test]
fn type_check_tests_simple_if_rtype_missmatch() {
    let (_, errors) = block_type(
        r#"{
                let x = if true {0} else {true}; 
                x
            }"#,
    );
    assert!(errors > 0);
}

#[test]
fn type_check_tests_simple_if_cond_not_bool() {
    let (_, errors) = block_type(
        r#"{
                let x = if 5 {0} else {0}; 
                x
            }"#,
    );
    assert!(errors > 0);
}

#[test]
fn type_check_tests_simple_block() {
    let (t, errors) = block_type(
        r#"{
                let x = 4;
                x
            }"#,
    );
    assert_eq!(errors, 0);
    assert_eq!(t, Some(Type::i32()));
}

#[test]
fn type_check_tests_simple_block_unit() {
    let (t, errors) = block_type(
        r#"{
                let x = 4;
                let y = "s";
                x;
            }"#,
    );
    assert_eq!(errors, 0);
    assert_eq!(t, Some(Type::unit()));
}

#[test]
fn type_check_tests_simple_bin() {
    let (t, errors) = expr_type("4+4");
    assert_eq!(errors, 0);
    assert_eq!(t, Some(Type::i32()));
}

#[test]
fn type_check_tests_type_expr_bin_op_fail() {
    assert!(expr_type("5+true").1 > 0);
    assert!(expr_type("true == false").1 > 0);
}

#[test]
fn type_check_tests_type_expr_un_op_fail() {
    let p1: Expr = expr(ExprKind::UnOp(UnOp::Neg, Box::new(expr(ExprKind::Lit(Literal::Bool(true))))));
    let p2: Expr = expr(ExprKind::UnOp(UnOp::Bang, Box::new(expr(ExprKind::Lit(Literal::Int(3))))));

    assert_type_fail(&p1);
    assert_type_fail(&p2);
}

#[test]
fn type_check_tests_double_assign_mut() {
    let (t, errors) = block_type(
        r#"
            {
                let mut x: i32;
                x = 4;
                x = 3;
            }
            "#,
    );
    assert_eq!(errors, 0);
    assert_eq!(t, Some(Type::unit()));
}

#[test]
fn type_check_tests_double_assign_fail() {
    let (_, errors) = block_type(
        r#"
            {
                let x: i32;
                x = 4;
                x = 3;
            }
            "#,
    );
    assert!(errors > 0);
}

#[test]
fn type_check_tests_print_success() {
    let (t, errors) = block_type(
        r#"
            {
                println!("{}", 1);
            }
            "#,
    );
    assert_eq!(errors, 0);
    assert_eq!(t, Some(Type::unit()));
}

#[test]
fn type_check_tests_print_fail() {
    let (_, errors) = block_type(
        r#"
            {
                println!("{}", true);
            }
            "#,
    );
    assert!(errors > 0);
}

#[test]
fn type_check_tests_simple_prog() {
    let p: Prog = parse(
        r#"
            fn add2(x: i32) -> i32 {
                fn add3(x: i32) -> i32 {
                    x + 3
                }
                add3(x) + 2
            }
            fn main() -> i32 {
                add2(0)
            }
            "#,
    );
    let mut vm = VM::new();
    assert_eq!(vm.eval_prog(&p).unwrap().get_int().unwrap(), 5);
}

#[test]
fn type_check_tests_println_function() {
    let (t, errors) = block_type(
        r#"
            {
                println!("Hello, world!");
                println!("Value: {}", 42);
            }
            "#,
    );
    assert_eq!(errors, 0);
    assert_eq!(t, Some(Type::unit()));
}

#[test]
fn type_check_tests_type_fail_inner_block_var() {
    let (_, errors) = block_type(
        r#"
            {
                let a = 1;
                {
                    let b = a + 1;
                }
                b
            }
            "#,
    );
    assert!(errors > 0);
}

#[test]
fn type_check_tests_type_fail_local_fn_not_visible_outside_block() {
    let (_, errors) = prog_type(
        r#"
            fn main() {
                {
                    fn f(x: i32) -> i32 { x }
                }
                let a = f(1);
            }
            "#,
    );
    assert!(errors > 0);
}

#[test]
fn type_check_tests_test_ex3_if() {
    let (t, errors) = prog_type(
        r#"
            fn max(a: i32, b: i32) -> i32 {
                if a > b { a } else { b }
            }

            fn main() -> i32 {
                max(3, 7)
            }"#,
    );
    assert_eq!(errors, 0);
    assert_eq!(t, Some(Type::i32()));
}

#[test]
fn type_check_tests_test_ex4_while_sum() {
    let (t, errors) = prog_type(
        r#"
            fn main() -> i32 {
                let mut i: i32 = 0;
                let mut sum: i32 = 0;
                while i < 5 {
                    sum = sum + i;
                    i = i + 1;
                }
                sum
            }
            "#,
    );
    assert_eq!(errors, 0);
    assert_eq!(t, Some(Type::i32()));
}

#[test]
fn type_check_tests_test_ex4_block_expr() {
    let (t, errors) = prog_type(
        r#"
            fn main() -> i32 {
                let x = {
                    let a = 2;
                    let b = 4;
                    a + b
                };
                let y = -x;
                if !(y < 0) { 1 } else { 0 }
            }
            "#,
    );
    assert_eq!(errors, 0);
    assert_eq!(t, Some(Type::i32()));
}

#[test]
fn fail_missing_return_expr() {
    assert!(prog_type(
        r#"
            fn main() -> i32 {
                let x = 5;
            }
        "#,
    )
    .1 > 0);
}

#[test]
fn fail_trailing_semicolon_kills_return() {
    assert!(prog_type(
        r#"
            fn main() -> i32 {
                5;
            }
        "#,
    )
    .1 > 0);
}

#[test]
fn fail_unit_expected_but_expr_present() {
    assert!(prog_type(
        r#"
            fn main() -> () {
                5
            }
        "#,
    )
    .1 > 0);
}

#[test]
fn fail_if_branch_mismatch() {
    assert!(block_type(
        r#"
            {
                if true { 1 } else { false }
            }
        "#,
    )
    .1 > 0);
}

#[test]
fn fail_if_missing_else_used_as_value() {
    assert!(block_type(
        r#"
            {
                let x: i32 = if true { 5 };
                x
            }
        "#,
    )
    .1 > 0);
}

#[test]
fn fail_if_semicolon_erases_value() {
    assert!(prog_type(
        r#"
            fn main() -> i32 {
                if true { 5 } else { 6 };
            }
        "#,
    )
    .1 > 0);
}

#[test]
fn inner_binding_does_not_leak_out_of_block() {
    // The inner `a` is a bool; after the block, `a` is the outer integer again.
    assert_eq!(block_type("{ let a = 1; { let a = true; }; a + 1 }"), (Some(Type::I32), 0));
    // A name bound only inside a block is unknown after it.
    assert_eq!(block_type("{ { let b = 1; }; b }").1, 1);
}

#[test]
fn function_declared_in_block_is_unknown_after_it() {
    let (t, errors) = block_type("{ { fn g() -> i32 { 1 } }; g() }");
    assert_eq!(errors, 1);
    assert_eq!(t, None);
    let b: Block = parse("{ { fn g() -> i32 { 1 } }; g() }");
    let mut tc = TypeChecker::new();
    tc.check_block(&b);
    assert!(matches!(&tc.errors[0], rnr::type_check::TypeError::UnknownFunction { name, .. } if name == "g"));
}

#[test]
fn function_declared_in_block_is_known_inside_it() {
    let (t, errors) = block_type("{ { fn g() -> i32 { 1 } g() } }");
    assert_eq!(errors, 0);
    assert_eq!(t, Some(Type::i32()));
}

#[test]
fn type_env_inner_binding_shadows_until_scope_closes() {
    let mut env = rnr::env::TypeEnv::new();
    let outer = AnnotatedType::new(Ty::i32(), false, true, ErrRange::dummy());
    let inner = AnnotatedType::new(Ty::bool(), true, true, ErrRange::dummy());
    env.define_binding("x", outer.clone());
    env.push_scope();
    env.define_binding("x", inner.clone());
    assert_eq!(env.lookup_binding("x"), Some(inner));
    env.pop_scope();
    assert_eq!(env.lookup_binding("x"), Some(outer));
    assert_eq!(env.lookup_binding("y"), None);
}

#[test]
fn type_env_function_of_closed_scope_is_gone() {
    let f: rnr::ast::FnDeclaration = try_parse("fn h() -> i32 { 1 }").unwrap();
    let mut env = rnr::env::TypeEnv::new();
    assert!(env.lookup_function("h").is_none());
    env.push_scope();
    env.define_function(&f);
    assert_eq!(env.lookup_function("h").map(|d| d.id.clone()), Some("h".to_string()));
    env.pop_scope();
    assert!(env.lookup_function("h").is_none());
}
