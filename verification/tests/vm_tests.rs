use rnr::ast::{Block, Expr, Literal, Prog};
use rnr::parse::{try_parse, Parse};
use rnr::vm::{Val, VM};

fn int_value(v: &Val) -> i32 {
    match v {
        Val::Lit(Literal::Int(i)) => *i,
        _ => panic!("expected an integer, got {:?}", v),
    }
}

fn bool_value(v: &Val) -> bool {
    match v {
        Val::Lit(Literal::Bool(b)) => *b,
        _ => panic!("expected a boolean, got {:?}", v),
    }
}

fn parse<T: Parse>(src: &str) -> T {
    try_parse::<T>(src).unwrap()
}

fn eval_expr_src(src: &str) -> Val {
    let e: Expr = parse(src);
    let mut vm = VM::new();
    vm.eval_expr(&e).unwrap()
}

fn eval_block_src(src: &str) -> Val {
    let b: Block = parse(src);
    let mut vm = VM::new();
    vm.eval_block(&b).unwrap()
}

fn eval_prog_src(src: &str) -> Val {
    let p: Prog = parse(src);
    let mut vm = VM::new();
    vm.eval_prog(&p).unwrap()
}

#[test]
fn simple_arithmetic() {
    assert_eq!(int_value(&eval_expr_src("1 + 1")), 2);
}

#[test]
fn bool_and() {
    let v = eval_block_src(
        r#"
            {
                let a = true && false;
                a
            }
        "#,
    );
    assert!(!bool_value(&v));
}

#[test]
fn bool_bang_nested() {
    let v = eval_block_src(
        r#"
            {
                let a = (!true) && false;
                a
            }
        "#,
    );
    assert!(!bool_value(&v));
}

#[test]
fn bool_bang_right() {
    let v = eval_block_src(
        r#"
            {
                let a = true && !false;
                a
            }
        "#,
    );
    assert!(bool_value(&v));
}

#[test]
fn let_block() {
    let v = eval_block_src(
        r#"
            {
                let a: i32 = 1;
                let b: i32 = 2;
                a + b
            }
        "#,
    );
    assert_eq!(int_value(&v), 3);
}

#[test]
fn let_shadowing() {
    let v = eval_block_src(
        r#"
            {
                let a: i32 = 1;
                let b: i32 = 2;
                let a: i32 = 3;
                let b: i32 = 4;
                a + b
            }
        "#,
    );
    assert_eq!(int_value(&v), 7);
}

#[test]
fn nested_block() {
    let v = eval_block_src(
        r#"
            {
                let a = 1;
                let b = {
                    let b = a;
                    b * 2
                };
                b
            }
        "#,
    );
    assert_eq!(int_value(&v), 2);
}

#[test]
fn assignment() {
    let v = eval_block_src(
        r#"
            {
                let mut a: i32 = 1;
                a = a + 2;
                a
            }
        "#,
    );
    assert_eq!(int_value(&v), 3);
}

#[test]
fn if_expression() {
    let v = eval_block_src(
        r#"
            {
                let mut a: i32 = 1;
                a = if a > 0 { a + 1 } else { a - 2 };
                a
            }
        "#,
    );
    assert_eq!(int_value(&v), 2);
}

#[test]
fn while_loop() {
    let v = eval_block_src(
        r#"
            {
                let a = 2;
                let b = 0;
                while a > 0 {
                    a = a - 1;
                    b = b + 1;
                }
                b
            }
        "#,
    );
    assert_eq!(int_value(&v), 2);
}

#[test]
fn complex_shadowing() {
    let v = eval_block_src(
        r#"
            {
                let a: i32 = 1 + 2;
                let a: i32 = 2 + a;
                if true {
                    a = a - 1;
                    let a: i32 = 0;
                    a = a + 1
                } else {
                    a = a - 1
                };
                a
            }
        "#,
    );
    assert_eq!(int_value(&v), 4);
}

#[test]
fn simple_program() {
    let v = eval_prog_src(
        r#"
            fn main() {
                let a = 1;
                a
            }
        "#,
    );
    assert_eq!(int_value(&v), 1);
}

#[test]
fn local_function() {
    let v = eval_prog_src(
        r#"
            fn main() {
                fn f(i: i32, j: i32) -> i32 {
                    i + j
                }
                let a = f(1, 2);
                println!("a = {} and another a = {}", a, a);
            }
        "#,
    );
    assert!(v.same(&Val::Lit(Literal::Unit)));
}

#[test]
fn global_fn_shadowing() {
    let v = eval_prog_src(
        r#"
            fn a() -> i32 {
                b()
            }

            fn b() -> i32 {
                42
            }

            fn main() {
                fn b() -> i32 {
                    99
                }
                a()
            }
        "#,
    );
    assert_eq!(int_value(&v), 42);
}

#[test]
fn nested_fn_shadowing() {
    let v = eval_prog_src(
        r#"
            fn a() -> i32 {
                fn b() -> i32 {
                    100
                }
                b()
            }

            fn main() {
                a()
            }
        "#,
    );
    assert_eq!(int_value(&v), 100);
}

#[test]
fn test_expr() {
    let v = eval_expr_src(
        "        
        1 + 1
    ",
    );
    assert_eq!(v.get_int().unwrap(), 2);
}

#[test]
fn test_bool() {
    let v = eval_block_src(
        "
    {
        let a = true && false;
        a
    }
    ",
    );
    assert!(!v.get_bool().unwrap());
}

#[test]
fn test_bool_bang2() {
    let v = eval_block_src(
        "
    {
        let a = (!true) && false;
        a
    }
    ",
    );
    assert!(!v.get_bool().unwrap());
}

#[test]
fn test_bool_bang() {
    let v = eval_block_src(
        "
    {
        let a = true && !false;
        a
    }
    ",
    );
    assert!(v.get_bool().unwrap());
}

#[test]
fn test_block_let() {
    let v = eval_block_src(
        "
    {
        let a: i32 = 1;
        let b: i32 = 2;

        a + b
    }",
    );
    assert_eq!(v.get_int().unwrap(), 3);
}

#[test]
fn test_block_let_shadow() {
    let v = eval_block_src(
        "
    {
        let a: i32 = 1;
        let b: i32 = 2;
        let a: i32 = 3;
        let b: i32 = 4;

        a + b
    }",
    );
    assert_eq!(v.get_int().unwrap(), 7);
}

#[test]
fn test_local_block() {
    let v = eval_block_src(
        "
    {
        let a = 1;
        let b = {
            let b = a;
            b * 2
        };

        b
    }
    ",
    );
    assert_eq!(v.get_int().unwrap(), 2);
}

#[test]
fn test_block_assign() {
    let v = eval_block_src(
        "
    {
        let mut a: i32 = 1;
        a = a + 2;
        a
    }",
    );
    assert_eq!(v.get_int().unwrap(), 3);
}

#[test]
fn vm_test_expr_if_then_else() {
    let v = eval_block_src(
        "
    {
        let mut a: i32 = 1;
        a = if a > 0 { a + 1 } else { a - 2 };
        a
    }",
    );
    assert_eq!(v.get_int().unwrap(), 2);
}

#[test]
fn test_while() {
    let v = eval_block_src(
        "
    {
        let a = 2;
        let b = 0;
        while a > 0 {
            a = a - 1;
            b = b + 1;
        }
        b
    }
    ",
    );
    assert_eq!(v.get_int().unwrap(), 2);
}

#[test]
fn vm_test_prog() {
    let v = eval_prog_src(
        "
    fn main() {
        let a = 1;
        a
    }
    ",
    );
    assert_eq!(v.get_int().unwrap(), 1);
}

#[test]
fn test_local_fn() {
    let v = eval_prog_src(
        "
    fn main() {
        fn f(i: i32, j: i32) -> i32 {
            i + j
        }
        let a = f(1, 2);
        println!(\"a = {} and another a = {}\", a, a);
    }
    ",
    );
    assert!(v.same(&Val::Lit(Literal::Unit)));
}

#[test]
fn test_check_if_then_else_shadowing() {
    let v = eval_block_src(
        "
        {
            let a: i32 = 1 + 2; // a == 3
            let a: i32 = 2 + a; // a == 5
            if true {
                a = a - 1;      // outer a == 4
                let a: i32 = 0; // inner a == 0
                a = a + 1       // inner a == 1
            } else {
                a = a - 1
            };
            a   // a == 4
        }
        ",
    );
    assert_eq!(v.get_int().unwrap(), 4);
}

#[test]
fn inner_binding_is_dropped_after_block() {
    assert_eq!(int_value(&eval_block_src("{ let a = 1; { let a = 2; a; }; a }")), 1);
    let b: Block = parse("{ { let b = 1; }; b }");
    let mut vm = VM::new();
    assert!(vm.eval_block(&b).is_err());
}
