use rnr::ast::{Arguments, BinOp, Expr, FnDeclaration, Literal, Parameter, Parameters, Type, UnOp};
use rnr::parse::{try_parse, Parse};

fn parse<T: Parse>(src: &str) -> T {
    try_parse::<T>(src).unwrap()
}

fn assert_parse_fail<T: Parse>(src: &str) {
    assert!(try_parse::<T>(src).is_err(), "expected {:?} to be rejected", src);
}

#[test]
fn parse_lit_int() {
    let lit: Literal = parse("1");
    assert_eq!(lit, Literal::Int(1));
}

#[test]
fn parse_lit_neg_int() {
    let lit: Literal = parse("-1");
    assert_eq!(lit, Literal::Int(-1));
}

#[test]
fn parse_lit_bool_false() {
    let lit: Literal = parse("false");
    assert_eq!(lit, Literal::Bool(false));
}

#[test]
fn parse_lit_string() {
    let lit: Literal = parse("\"abba\"");
    assert_eq!(lit, Literal::String("abba".to_string()));
}

#[test]
fn parse_lit_fail() {
    assert_parse_fail::<Literal>("a");
    assert_parse_fail::<Literal>("-");
    assert_parse_fail::<Literal>("'hello'");
}

#[test]
fn add() {
    let op: BinOp = parse("+");
    assert_eq!(op, BinOp::Add);
}

#[test]
fn sub() {
    let op: BinOp = parse("-");
    assert_eq!(op, BinOp::Sub);
}

#[test]
fn mul() {
    let op: BinOp = parse("*");
    assert_eq!(op, BinOp::Mul);
}

#[test]
fn div() {
    let op: BinOp = parse("/");
    assert_eq!(op, BinOp::Div);
}

#[test]
fn and() {
    let op: BinOp = parse("&&");
    assert_eq!(op, BinOp::And);
}

#[test]
fn or() {
    let op: BinOp = parse("||");
    assert_eq!(op, BinOp::Or);
}

#[test]
fn eq() {
    let op: BinOp = parse("==");
    assert_eq!(op, BinOp::Eq);
}

#[test]
fn lt() {
    let op: BinOp = parse("<");
    assert_eq!(op, BinOp::Lt);
}

#[test]
fn gt() {
    let op: BinOp = parse(">");
    assert_eq!(op, BinOp::Gt);
}

#[test]
fn parse_op_fail() {
    assert_parse_fail::<BinOp>("1");
    assert_parse_fail::<BinOp>("x");
    assert_parse_fail::<BinOp>(".");
}

#[test]
fn bang() {
    let op: UnOp = parse("!");
    assert_eq!(op, UnOp::Bang);
}

#[test]
fn neg() {
    let op: UnOp = parse("-");
    assert_eq!(op, UnOp::Neg);
}

#[test]
fn parse_unop_fail() {
    assert_parse_fail::<UnOp>(".");
    assert_parse_fail::<UnOp>("/");
    assert_parse_fail::<UnOp>("x");
    assert_parse_fail::<UnOp>("1");
    assert_parse_fail::<UnOp>("i32");
    assert_parse_fail::<UnOp>("true");
    assert_parse_fail::<UnOp>("()");
}

#[test]
fn literal() {
    parse::<Expr>("123");
    parse::<Expr>("true");
    parse::<Expr>("()");
    parse::<Expr>("\"hello world\"");
}

#[test]
fn binary_op() {
    parse::<Expr>("1 + 2");
    parse::<Expr>("1 - 2");
    parse::<Expr>("1 * 2");
    parse::<Expr>("1 / 2");
    parse::<Expr>("1 + 2 + 3");
    parse::<Expr>("1 * 2 - 3 / 1");
    parse::<Expr>("(1) + (2)");
    parse::<Expr>("(1 + 2) + (3 + 4)");
    parse::<Expr>("(1 * 2) - (3 / 4)");
    parse::<Expr>("true || false");
    parse::<Expr>("true && false");
    parse::<Expr>("true && (false || true) && false");
}

#[test]
fn binary_op_comparisons() {
    parse::<Expr>("1 == 2");
    parse::<Expr>("1 < 2");
    parse::<Expr>("1 > 2");
    parse::<Expr>("1 + (2 * 3) == (2 - 3) / 4");
    parse::<Expr>("1 + 2 < 2 * 3");
    parse::<Expr>("1 + 2 > (2 - 1)");
    parse::<Expr>("true == true");
    parse::<Expr>("true || false == true && (false || true)");
}

#[test]
fn unary_op() {
    parse::<Expr>("-(1)");
    parse::<Expr>("-(1+2)");
    parse::<Expr>("-(2 * 3 / 2)");
    parse::<Expr>("!true");
    parse::<Expr>("!true && true");
    parse::<Expr>("!true || !false");
    parse::<Expr>("!(true && !true)");
}

#[test]
fn identifier() {
    parse::<Expr>("my_variable");
    parse::<Expr>("var");
    parse::<Expr>("var123");
    parse::<Expr>("_var_123_");
}

#[test]
fn operators_and_identifiers() {
    parse::<Expr>("-my_variable");
    parse::<Expr>("!var");
    parse::<Expr>("321 + var123 - 123");
    parse::<Expr>("(1 - _var_123_ * 2) == a && (!b || true) || !a");
}

#[test]
fn parse_tests_fail_tests() {
    assert_parse_fail::<Expr>("12 34");
    assert_parse_fail::<Expr>("+");
    assert_parse_fail::<Expr>("1+");
    assert_parse_fail::<Expr>("1++2");
    assert_parse_fail::<Expr>("1+2+3+4+");
    assert_parse_fail::<Expr>("(1+2+3+4");
    assert_parse_fail::<Expr>("1+2+3+4)");
    assert_parse_fail::<Expr>("1)+2+(3+4");
    assert_parse_fail::<Expr>("3(1+2)");
    assert_parse_fail::<Expr>("(1+2)3");
    assert_parse_fail::<Expr>("(1+2)(3+4)");
    assert_parse_fail::<Expr>("12!34");
    assert_parse_fail::<Expr>("true ! false");
    assert_parse_fail::<Expr>("(2 * 4) - ");
}

#[test]
#[allow(unused_must_use)]
fn test_if_then_else_nested_rust() {
    if false {
        2;
    } else {
        if true {
            3 + 5;
        }
    };
}

#[test]
#[allow(unused_must_use)]
fn test_if_then_else_nested_rust2() {
    if false {
        2;
    } else if true {
        3 + 5;
    };
}

#[test]
fn test_if_then_else_nested2() {
    let src = "
        if false {
            2;
        } else if true {
            3 + 5;
        }";
    let _e: Expr = parse(src);
}

#[test]
fn test_if_then_else_nested() {
    let src = "
        if false {
            2;
        } else {
            if true {
                3 + 5;
            }
        }";
    let _e: Expr = parse(src);
}

#[test]
fn test_if_then_else_nested3() {
    let src = "
        if false {
            2;
        } else if true {
            3 + 5;
        } else if false {
            let a : i32 = 0;
        } else {
            5
        }
        ";
    let _e: Expr = parse(src);
}

#[test]
fn parse_tests_test_expr_if_then_else() {
    let src = "if a > 0 {1} else {2}";
    let _e: Expr = parse(src);
}

#[test]
fn parse_type_i32() {
    let typ: Type = parse("i32");
    assert_eq!(typ, Type::I32);
}

#[test]
fn parse_type_bool() {
    let typ: Type = parse("bool");
    assert_eq!(typ, Type::Bool);
}

#[test]
fn parse_type_unit() {
    let typ: Type = parse("()");
    assert_eq!(typ, Type::Unit);
}

#[test]
fn parse_type_fail() {
    assert_parse_fail::<Type>("u32");
    assert_parse_fail::<Type>("I32");
    assert_parse_fail::<Type>("123");
    assert_parse_fail::<Type>("boolean");
    assert_parse_fail::<Type>("Bool");
    assert_parse_fail::<Type>("true");
    assert_parse_fail::<Type>("false");
}

#[test]
fn args() {
    parse::<Arguments>("(1)");
    parse::<Arguments>("(a)");
    parse::<Arguments>("(a, b)");
    parse::<Arguments>("(a + 1, b * 2)");
    parse::<Arguments>("(1, 2, 3 + 4)");
}

#[test]
fn function_call() {
    parse::<Expr>("foo()");
    parse::<Expr>("foo(1)");
    parse::<Expr>("foo(true)");
    parse::<Expr>("foo(true, false)");
    parse::<Expr>("foo(true || false)");
    parse::<Expr>("foo(1 + 2)");
    parse::<Expr>("foo(1, 2)");
    parse::<Expr>("foo(1, 2 + 2)");
    parse::<Expr>("foo(my_variable)");
    parse::<Expr>("foo(a, b, c)");
    parse::<Expr>("foo(\"passing a string\")");
    parse::<Expr>("ident({1}, {let a = 6; a },)");
}

#[test]
fn function_call_extra_comma() {
    parse::<Expr>("foo(1,)");
    parse::<Expr>("foo(1, 2,)");
    parse::<Expr>("foo(1, 2 + 2,)");
    parse::<Expr>("foo(a,)");
    parse::<Expr>("foo(a, b, c,)");
    parse::<Expr>("foo(true, false,)");
}

#[test]
fn param() {
    parse::<Parameter>("a: i32");
    parse::<Parameter>("b: bool");
}

#[test]
fn params() {
    parse::<Parameters>("(a: i32)");
    parse::<Parameters>("(a: i32,)");
    parse::<Parameters>("(b: bool)");
    parse::<Parameters>("(a: i32, b: bool)");
    parse::<Parameters>("(a: i32, b: bool,)");
}

#[test]
fn fn_no_type() {
    parse::<FnDeclaration>("fn foo() {}");
    parse::<FnDeclaration>("fn foo(a: i32, b: bool) {}");
}

#[test]
fn fn_with_type() {
    parse::<FnDeclaration>("fn foo() -> i32 {}");
    parse::<FnDeclaration>("fn foo(a: i32, b: bool) -> i32 {}");
    parse::<FnDeclaration>("fn foo() -> () {}");
    parse::<FnDeclaration>("fn foo(a: i32, b: bool) -> () {}");
    parse::<FnDeclaration>("fn foo() -> bool {}");
    parse::<FnDeclaration>("fn foo(a: i32, b: bool) -> bool {}");
}

#[test]
fn test_println() {
    let src = "println!(\"{}\", 1)";
    let _expr: Expr = parse(src);
}
