use rnr::ast::{
    expr, Block, BinOp, Expr, ExprKind, Literal, Mutable, Parameter, Parameters, Prog, Statement, StatementKind, Type, TypeExpr,
    UnOp,
};
use rnr::dot::DotGenerator;
use rnr::error::ErrRange;
use rnr::parse::{try_parse, Parse};
use rnr::view::{AstKind, AstNode};

fn parse<T: Parse>(src: &str) -> T {
    try_parse::<T>(src).unwrap()
}

/// Structural equality of expressions, spans aside.
fn same_expr(a: &Expr, b: &Expr) -> bool {
    match (&a.node, &b.node) {
        (ExprKind::Ident(x), ExprKind::Ident(y)) => x == y,
        (ExprKind::Lit(x), ExprKind::Lit(y)) => x == y,
        (ExprKind::BinOp(o1, l1, r1), ExprKind::BinOp(o2, l2, r2)) => o1 == o2 && same_expr(l1, l2) && same_expr(r1, r2),
        (ExprKind::Par(x), ExprKind::Par(y)) => same_expr(x, y),
        (ExprKind::UnOp(o1, x), ExprKind::UnOp(o2, y)) => o1 == o2 && same_expr(x, y),
        (ExprKind::Call(f, xs), ExprKind::Call(g, ys)) => {
            f == g && xs.0.len() == ys.0.len() && xs.0.iter().zip(ys.0.iter()).all(|(x, y)| same_expr(x, y))
        }
        (ExprKind::Block(x), ExprKind::Block(y)) => same_block(x, y),
        (ExprKind::IfThenElse(c1, t1, e1), ExprKind::IfThenElse(c2, t2, e2)) => {
            same_expr(c1, c2)
                && same_block(t1, t2)
                && match (e1, e2) {
                    (Some(x), Some(y)) => same_block(x, y),
                    (None, None) => true,
                    _ => false,
                }
        }
        _ => false,
    }
}

/// A type written nowhere in the source.
fn ty(t: Type) -> TypeExpr {
    TypeExpr { node: t, span: ErrRange::dummy() }
}

fn same_block(a: &Block, b: &Block) -> bool {
    a.semi == b.semi
        && a.statements.len() == b.statements.len()
        && a.statements.iter().zip(b.statements.iter()).all(|(x, y)| same_stmt(x, y))
}

fn same_stmt(a: &Statement, b: &Statement) -> bool {
    match (&a.node, &b.node) {
        (StatementKind::Let(m1, i1, t1, e1), StatementKind::Let(m2, i2, t2, e2)) => {
            m1 == m2
                && i1 == i2
                && t1.map(|t| t.node) == t2.map(|t| t.node)
                && match (e1, e2) {
                    (Some(x), Some(y)) => same_expr(x, y),
                    (None, None) => true,
                    _ => false,
                }
        }
        (StatementKind::Assign(l1, r1), StatementKind::Assign(l2, r2)) => same_expr(l1, l2) && same_expr(r1, r2),
        (StatementKind::While(c1, b1), StatementKind::While(c2, b2)) => same_expr(c1, c2) && same_block(b1, b2),
        (StatementKind::Expr(x), StatementKind::Expr(y)) => same_expr(x, y),
        (StatementKind::Fn(f), StatementKind::Fn(g)) => f.to_string() == g.to_string(),
        _ => false,
    }
}

fn lit<T: Into<Lit>>(x: T) -> Expr {
    x.into().0
}

struct Lit(Expr);

impl From<i32> for Lit {
    fn from(i: i32) -> Lit {
        Lit(expr(ExprKind::Lit(Literal::Int(i))))
    }
}

impl From<bool> for Lit {
    fn from(b: bool) -> Lit {
        Lit(expr(ExprKind::Lit(Literal::Bool(b))))
    }
}

impl From<Expr> for Lit {
    fn from(e: Expr) -> Lit {
        Lit(e)
    }
}

fn bin<T1: Into<Lit>, T2: Into<Lit>>(op: BinOp, l: T1, r: T2) -> Expr {
    expr(ExprKind::bin_op(op, lit(l), lit(r)))
}

fn add<T1: Into<Lit>, T2: Into<Lit>>(l: T1, r: T2) -> Expr {
    bin(BinOp::Add, l, r)
}

fn mul<T1: Into<Lit>, T2: Into<Lit>>(l: T1, r: T2) -> Expr {
    bin(BinOp::Mul, l, r)
}

fn or<T1: Into<Lit>, T2: Into<Lit>>(l: T1, r: T2) -> Expr {
    bin(BinOp::Or, l, r)
}

fn and<T1: Into<Lit>, T2: Into<Lit>>(l: T1, r: T2) -> Expr {
    bin(BinOp::And, l, r)
}

fn eq<T1: Into<Lit>, T2: Into<Lit>>(l: T1, r: T2) -> Expr {
    bin(BinOp::Eq, l, r)
}

fn paren(e: Expr) -> Expr {
    expr(ExprKind::Par(Box::new(e)))
}

#[test]
fn precedence_and_associativity_1() {
    let e: Expr = parse("1+2+3");
    assert!(same_expr(&e, &add(add(1, 2), 3)));
}

#[test]
fn precedence_and_associativity_2() {
    let e: Expr = parse("1+2*3");
    assert!(same_expr(&e, &add(1, mul(2, 3))));
}

#[test]
fn precedence_and_associativity_3() {
    let e: Expr = parse("1+2*3+4");
    assert!(same_expr(&e, &add(add(1, mul(2, 3)), 4)));
}

#[test]
fn precedence_and_associativity_4() {
    let e: Expr = parse("1+2*3 == 4");
    assert!(same_expr(&e, &eq(add(1, mul(2, 3)), 4)));
}

#[test]
fn precedence_and_associativity_5() {
    let e: Expr = parse("1+2*3 == 1+2*3");
    assert!(same_expr(&e, &eq(add(1, mul(2, 3)), add(1, mul(2, 3)))));
}

#[test]
fn precedence_and_associativity_6() {
    let e: Expr = parse("1*2+3*4+5*6");
    assert!(same_expr(&e, &add(add(mul(1, 2), mul(3, 4)), mul(5, 6))));
}

#[test]
fn precedence_and_associativity_7() {
    let e: Expr = parse("1+2 * 3+4 == 5*(6+7) + 8*9");
    let left = add(add(1, mul(2, 3)), 4);
    let right = add(mul(5, paren(add(6, 7))), mul(8, 9));
    assert!(same_expr(&e, &eq(left, right)));
}

#[test]
fn precedence_and_associativity_123() {
    let e: Expr = parse("true || true && true == true");
    assert!(same_expr(&e, &or(true, and(true, eq(true, true)))));
}

#[test]
fn precedence_and_associativity_132() {
    let e: Expr = parse("true || true == true && true");
    assert!(same_expr(&e, &or(true, and(eq(true, true), true))));
}

#[test]
fn precedence_and_associativity_213() {
    let e: Expr = parse("true && true || true == true");
    assert!(same_expr(&e, &or(and(true, true), eq(true, true))));
}

#[test]
fn precedence_and_associativity_231() {
    let e: Expr = parse("true && true == true || true");
    assert!(same_expr(&e, &or(and(true, eq(true, true)), true)));
}

#[test]
fn precedence_and_associativity_312() {
    let e: Expr = parse("true == true || true && true");
    assert!(same_expr(&e, &or(eq(true, true), and(true, true))));
}

#[test]
fn precedence_and_associativity_321() {
    let e: Expr = parse("true == true && true || true");
    assert!(same_expr(&e, &or(and(eq(true, true), true), true)));
}

#[test]
fn test_block_expr_fail() {
    assert!(try_parse::<Statement>("{ let a = }").is_err());
}

#[test]
fn test_block_semi() {
    let bl: Block = parse(
        "
        {
            let a : i32 = 1;
            a = 5;
            a + 5;
        }",
    );
    assert_eq!(bl.statements.len(), 3);
    assert!(bl.semi);
}

#[test]
fn test_block_no_semi() {
    let bl: Block = parse(
        "
        {
            let a : i32 = 1;
            a = 5;
            a + 5
        }",
    );
    assert_eq!(bl.statements.len(), 3);
    assert!(!bl.semi);
}

#[test]
fn test_block_fn() {
    let bl: Block = parse(
        "
        {
            let a : i32 = 1;
            fn t() {}
            a = 5;
            a + 5
        }",
    );
    assert_eq!(bl.statements.len(), 4);
    assert!(!bl.semi);
}

#[test]
fn test_block_while() {
    let bl: Block = parse(
        "
        {
            let a : i32 = 1;
            while true {}
            a = 5;
            a + 5
        }",
    );
    assert_eq!(bl.statements.len(), 4);
    assert!(!bl.semi);
}

#[test]
fn test_block2() {
    let bl: Block = parse("{ let b : bool = false; b = true }");
    assert_eq!(bl.statements.len(), 2);
    assert!(!bl.semi);
}

#[test]
fn test_expr_block() {
    let _e: Expr = parse(
        "
        {
            12
        }
        ",
    );
}

#[test]
fn test_block_fail() {
    assert!(try_parse::<Block>("{ let a = 1 a = 5 }").is_err());
}

#[test]
fn parse_tests_test_prog() {
    let _p: Prog = parse(
        "
        fn a(a: i32) { let b = a; }
        fn b() -> i32 { 3 }

        fn main() {

        }
        ",
    );
}

#[test]
fn test_statement_let_ty_expr() {
    let stmt: Statement = parse("let a: i32 = 2");
    let expected = Statement {
        node: StatementKind::Let(Mutable(false), "a".to_string(), Some(ty(Type::i32())), Some(expr(ExprKind::Lit(Literal::Int(2))))),
        span: ErrRange::dummy(),
    };
    assert!(same_stmt(&stmt, &expected));
}

#[test]
fn test_statement_let_mut_ty_expr() {
    let stmt: Statement = parse("let mut a: i32 = 2");
    let expected = Statement {
        node: StatementKind::Let(Mutable(true), "a".to_string(), Some(ty(Type::i32())), Some(expr(ExprKind::Lit(Literal::Int(2))))),
        span: ErrRange::dummy(),
    };
    assert!(same_stmt(&stmt, &expected));
}

#[test]
fn test_statement_let() {
    let stmt: Statement = parse("let a");
    let expected = Statement { node: StatementKind::Let(Mutable(false), "a".to_string(), None, None), span: ErrRange::dummy() };
    assert!(same_stmt(&stmt, &expected));
}

#[test]
fn test_statement_assign() {
    let stmt: Statement = parse("a = false");
    let expected = Statement {
        node: StatementKind::Assign(expr(ExprKind::Ident("a".to_string())), expr(ExprKind::Lit(Literal::Bool(false)))),
        span: ErrRange::dummy(),
    };
    assert!(same_stmt(&stmt, &expected));
}

#[test]
fn test_statement_while() {
    let stmt: Statement = parse("while a {}");
    let expected = Statement {
        node: StatementKind::While(expr(ExprKind::Ident("a".to_string())), Block::new(vec![], false)),
        span: ErrRange::dummy(),
    };
    assert!(same_stmt(&stmt, &expected));
}

#[test]
fn test_statement_expr() {
    let stmt: Statement = parse("a");
    let expected = Statement { node: StatementKind::Expr(expr(ExprKind::Ident("a".to_string()))), span: ErrRange::dummy() };
    assert!(same_stmt(&stmt, &expected));
}

#[test]
fn span_exists_on_expr() {
    let e: Expr = parse("1 + 2");
    if let ExprKind::BinOp(_, left, right) = &e.node {
        assert_eq!(e.span, left.span.join(&right.span));
    } else {
        panic!("expected binop");
    }
}

#[test]
fn span_binop_joinable() {
    let e: Expr = parse("1 + 2");
    if let ExprKind::BinOp(_, left, right) = &e.node {
        let joined = left.span.join(&right.span);
        assert_eq!(joined.start_column, 0);
        assert_eq!(joined.end_column, 5);
    } else {
        panic!("expected binop");
    }
}

#[test]
fn span_paren_differs_from_inner() {
    let e: Expr = parse("(1)");
    if let ExprKind::Par(inner) = &e.node {
        assert_ne!(format!("{:?}", e.span), format!("{:?}", inner.span));
    } else {
        panic!("expected paren");
    }
}

#[test]
fn span_nested_binop_joinable() {
    let e: Expr = parse("1 + 2 * 3");
    if let ExprKind::BinOp(_, _, right) = &e.node {
        if let ExprKind::BinOp(_, r_left, r_right) = &right.node {
            assert_eq!(right.span, r_left.span.join(&r_right.span));
        } else {
            panic!("expected nested binop");
        }
    } else {
        panic!("expected binop");
    }
}

#[test]
fn span_literal_exists() {
    let e: Expr = parse("42");
    assert!(matches!(e.node, ExprKind::Lit(_)));
    assert_eq!(e.span.start_line, 1);
}

#[test]
fn span_unop_exists() {
    let e: Expr = parse("!true");
    if let ExprKind::UnOp(_, inner) = &e.node {
        assert_eq!(inner.span.start_column, 1);
        assert_eq!(e.span.start_column, 0);
    } else {
        panic!("expected unary op");
    }
}

#[test]
fn span_if_expr_exists() {
    let e: Expr = parse("if true {1} else {2}");
    if let ExprKind::IfThenElse(cond, _then_block, else_block) = &e.node {
        assert_eq!(cond.span.start_column, 3);
        assert!(else_block.is_some());
    } else {
        panic!("expected if expression");
    }
}

#[test]
fn span_block_expr_exists() {
    let e: Expr = parse("{ 1 }");
    if let ExprKind::Block(block) = &e.node {
        assert!(block.statements.len() == 1);
    } else {
        panic!("expected block");
    }
}

#[test]
fn span_ident_exists() {
    let e: Expr = parse("abc");
    assert!(matches!(e.node, ExprKind::Ident(_)));
    assert_eq!(e.span.end_column, 3);
}

#[test]
fn span_call_exists() {
    let e: Expr = parse("foo(1, 2)");
    if let ExprKind::Call(_, args) = &e.node {
        assert_eq!(args.0.len(), 2);
        assert_eq!(args.0[1].span.start_column, 7);
    } else {
        panic!("expected call");
    }
}

#[test]
fn display_parameters() {
    let params = Parameters(vec![
        Parameter { mutable: Mutable(true), id: "testparam".to_string(), ty: ty(Type::I32), span: ErrRange::dummy() },
        Parameter { mutable: Mutable(false), id: "testparam2".to_string(), ty: ty(Type::String), span: ErrRange::dummy() },
    ]);
    assert_eq!(params.to_string(), "(mut testparam: i32, testparam2: String)")
}

#[test]
fn display_expr() {
    assert_eq!(ExprKind::Ident("a".to_string()).to_string(), "a");
    assert_eq!(ExprKind::Lit(Literal::Int(7)).to_string(), "7");
    assert_eq!(ExprKind::Lit(Literal::Bool(false)).to_string(), "false");
    let e = ExprKind::BinOp(
        BinOp::Add,
        Box::new(expr(ExprKind::Ident("a".to_string()))),
        Box::new(expr(ExprKind::Lit(Literal::Int(7)))),
    );
    assert_eq!(e.to_string(), "a + 7");
}

#[test]
fn parse_display_expr() {
    let e: Expr = parse("a + 7");
    assert_eq!(e.node.to_string(), "a + 7");
}

#[test]
fn parse_display_if() {
    let e: Expr = parse("if a > 5 {5}");
    assert_eq!(e.to_string(), "if a > 5 {\n\t5\n}");
}

#[test]
fn display_while() {
    let s: Statement = parse(
        "
    while a == 9 {
        let b : i32 = 7;
    }
    ",
    );
    assert_eq!(s.to_string(), "while a == 9 {\n\tlet b: i32 = 7;\n}");
}

#[test]
fn display_if_then_else() {
    let e: Expr = parse(
        "
    if a {
        let a : i32 = false;
        0
    } else {
        if a == 5 { b = 8 };
        while b {
            e;
        }
        b
    }
    ",
    );
    assert!(e.to_string().starts_with("if a {\n\tlet a: i32 = false;\n\t0\n} else {"));
}

#[test]
fn display_program_and_function() {
    let p: Prog = parse("fn f(mut x: i32) -> bool { x == 1 } fn main() { f(1); }");
    assert_eq!(p.to_string(), "fn f(mut x: i32) -> bool {\n\tx == 1\n}\nfn main() {\n\tf(1);\n}");
}

#[test]
fn display_string_literal_and_unops() {
    let e: Expr = parse("-(1) + !true");
    assert_eq!(e.to_string(), "-(1) + !true");
    assert_eq!(Literal::String("hi".to_string()).to_string(), "\"hi\"");
    assert_eq!(Literal::Int(-42).to_string(), "-42");
    assert_eq!(Literal::Int(i32::MIN).to_string(), "-2147483648");
    assert_eq!(UnOp::Neg.to_string(), "-");
    assert_eq!(BinOp::Or.to_string(), "||");
}

#[test]
fn label_of_expressions() {
    assert_eq!(ExprKind::Ident("x".to_string()).label(), "Ident(x)");
    assert_eq!(ExprKind::Lit(Literal::Int(3)).label(), "Lit(3)");
    let e: Expr = parse("(1)");
    assert_eq!(e.node.label(), "Par");
    assert_eq!(e.node.as_str(), "Par");
}

#[test]
fn ast_node_of_program() {
    let p: Prog = parse("fn main() -> i32 { let mut x: i32 = 1; x + 2 }");
    let n = AstNode::from_prog(&p);
    assert_eq!(n.kind, AstKind::Prog);
    assert_eq!(n.label, "Prog");
    assert_eq!(n.children.len(), 1);
    let f = &n.children[0];
    assert_eq!(f.label, "fn main");
    assert_eq!(f.children.len(), 3);
    assert_eq!(f.children[0].label, "Parameters");
    assert_eq!(f.children[1].label, "Type i32");
    let body = &f.children[2];
    assert_eq!(body.label, "Block");
    assert_eq!(body.children.len(), 2);
    let let_node = &body.children[0];
    assert_eq!(let_node.label, "Let");
    let labels: Vec<&str> = let_node.children.iter().map(|c| c.label.as_str()).collect();
    assert_eq!(labels, vec!["Mutable(true)", "Ident(x)", "Type i32", "Literal(1)"]);
    assert_eq!(body.children[1].label, "BinOp(+)");
    assert_eq!(body.children[1].kind, AstKind::BinOp);
}

#[test]
fn ast_node_of_call_and_if() {
    let e: Expr = parse("if f(1, x) { () } else { -y; }");
    let n = AstNode::from_expr(&e);
    assert_eq!(n.label, "IfThenElse");
    assert_eq!(n.children.len(), 3);
    assert_eq!(n.children[0].label, "Call(f)");
    assert_eq!(n.children[0].children[0].label, "Args");
    assert_eq!(n.children[0].children[0].children.len(), 2);
    assert_eq!(n.children[2].label, "Block (semi)");
    assert_eq!(n.children[2].children[0].label, "UnOp(-)");
}

#[test]
fn dot_of_program() {
    let p: Prog = parse("fn main() { let a = 1 + b; a }");
    let mut g = DotGenerator::new();
    let out = g.generate(&p);
    let expected = "digraph AST {\n  n0 [label=\"Prog\"];\n  n1 [label=\"fn main\"];\n  n2 [label=\"Block\"];\n  n3 [label=\"let a\"];\n  n4 [label=\"+\"];\n  n5 [label=\"1\"];\n  n6 [label=\"b\"];\n  n7 [label=\"Expr\"];\n  n8 [label=\"a\"];\n  n4 -> n5;\n  n4 -> n6;\n  n3 -> n4;\n  n2 -> n3;\n  n7 -> n8;\n  n2 -> n7;\n  n1 -> n2;\n  n0 -> n1;\n}";
    assert_eq!(out, expected);
}

#[test]
fn dot_of_parameters() {
    let ps: Parameters = parse("(a: i32, mut b: bool)");
    let mut g = DotGenerator::new();
    let id = g.visit_parameters(&ps);
    assert_eq!(id, 0);
}
