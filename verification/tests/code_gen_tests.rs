use std::collections::HashMap;

use rnr::ast::{BinOp, Block, Expr, Literal, Prog};
use rnr::code_gen::{block_instrs, expr_instrs, format_instrs, prog_instrs, CodeGenEnv, CodegenVm, Instr, Op, Reg};
use rnr::error::{CodeGenError, Error};
use rnr::parse::{try_parse, Parse};

fn parse<T: Parse>(src: &str) -> T {
    try_parse::<T>(src).unwrap()
}

fn reg_index(r: Reg) -> usize {
    match r {
        Reg::Zero => 0,
        Reg::T0 => 1,
        Reg::T1 => 2,
        Reg::Sp => 3,
        Reg::Fp => 4,
        Reg::Ra => 5,
    }
}

/// A small interpreter of the generated instructions, used as a test oracle: it
/// runs from the first instruction until `halt`, the end of the code, or a step limit,
/// and gives the final value of `t0`.
fn run_instrs(instrs: &[Instr]) -> i32 {
    let mut labels: HashMap<String, usize> = HashMap::new();
    for (i, instr) in instrs.iter().enumerate() {
        if let Some(l) = &instr.label {
            labels.insert(l.clone(), i);
        }
    }
    let mut regs = [0i32; 6];
    // Registers start at zero, but for the stack pointer, which starts at the top
    // of the stack; locals outside any function frame live below address zero.
    regs[reg_index(Reg::Sp)] = 0x0001_0000;
    let mut mem: HashMap<i32, i32> = HashMap::new();
    let mut pc: usize = 0;
    let mut steps = 0;
    while pc < instrs.len() {
        steps += 1;
        assert!(steps < 1_000_000, "the generated code does not stop");
        let get = |regs: &[i32; 6], r: Reg| regs[reg_index(r)];
        let mut next = pc + 1;
        let mut write: Option<(Reg, i32)> = None;
        match &instrs[pc].op {
            Op::Add(d, s, t) | Op::Addu(d, s, t) => write = Some((*d, get(&regs, *s).wrapping_add(get(&regs, *t)))),
            Op::Sub(d, s, t) | Op::Subu(d, s, t) => write = Some((*d, get(&regs, *s).wrapping_sub(get(&regs, *t)))),
            Op::And(d, s, t) => write = Some((*d, get(&regs, *s) & get(&regs, *t))),
            Op::Or(d, s, t) => write = Some((*d, get(&regs, *s) | get(&regs, *t))),
            Op::Slt(d, s, t) => write = Some((*d, (get(&regs, *s) < get(&regs, *t)) as i32)),
            Op::Addi(t, s, i) | Op::Addiu(t, s, i) => write = Some((*t, get(&regs, *s).wrapping_add(*i as i32))),
            Op::Xori(t, s, i) => write = Some((*t, get(&regs, *s) ^ (*i as u16 as i32))),
            Op::Lw(t, off, b) => {
                let v = *mem.get(&(get(&regs, *b) + *off as i32)).unwrap_or(&0);
                write = Some((*t, v));
            }
            Op::Sw(t, off, b) => {
                mem.insert(get(&regs, *b) + *off as i32, get(&regs, *t));
            }
            Op::Beq(s, t, l) => {
                if get(&regs, *s) == get(&regs, *t) {
                    next = labels[l];
                }
            }
            Op::B(l) => next = labels[l],
            Op::Bal(l) => {
                write = Some((Reg::Ra, (pc + 1) as i32));
                next = labels[l];
            }
            Op::Jr(r) => next = get(&regs, *r) as usize,
            Op::Halt => break,
        }
        if let Some((r, v)) = write {
            if r != Reg::Zero {
                regs[reg_index(r)] = v;
            }
        }
        pc = next;
    }
    regs[reg_index(Reg::T0)]
}

fn run_expr_i32(src: &str) -> i32 {
    let e: Expr = parse(src);
    run_instrs(&expr_instrs(&e).unwrap())
}

fn run_block_i32(src: &str) -> i32 {
    let b: Block = parse(src);
    run_instrs(&block_instrs(&b).unwrap())
}

fn run_prog_i32(src: &str) -> i32 {
    let p: Prog = parse(src);
    run_instrs(&prog_instrs(&p).unwrap())
}

#[test]
fn binop_tests_success() {
    assert_eq!(run_expr_i32("1+2+3"), 6);
    assert_eq!(run_expr_i32("1+2-3"), 0);
    assert_eq!(run_expr_i32("4==4"), true.into());
    assert_eq!(run_expr_i32("true && false"), false.into());
    assert_eq!(run_expr_i32("true || false"), true.into());
    assert_eq!(run_expr_i32("1<2"), true.into());
    assert_eq!(run_expr_i32("1>2"), false.into());
    assert_eq!(run_expr_i32("4-(1+2)"), 1);
}

#[test]
fn unop_tests_success() {
    assert_eq!(run_expr_i32("!true"), 0);
    assert_eq!(run_expr_i32("!!(2>1)"), 1);
}

#[test]
fn if_then_else_test() {
    assert_eq!(run_expr_i32("if 1>2 {1} else {2}"), 2);
}

#[test]
fn block_expr_test() {
    assert_eq!(run_block_i32("{1+2+3}"), 6);
}

#[test]
fn blocks_tests() {
    assert_eq!(run_block_i32("{let x = 5; let y = 3; x}"), 5);
    assert_eq!(run_block_i32("{let x = 5; x = 3; let y = 3; x}"), 3);
    assert_eq!(run_block_i32("{1}"), 1);
}

#[test]
fn while_tests() {
    assert_eq!(run_block_i32("{let x = 2;while x > 1 {x = x-1}; x}"), 1);
}

#[test]
fn test_block_if_else() {
    assert_eq!(run_block_i32("{if true { 1 } else { 0 } }"), 1);
}

#[test]
fn while_inside_if() {
    let block = r#"
    {
        let x = 0;
        if true {
            while x < 3 { x = x + 1 };
        } else { x = 100 };
        x
    }"#;
    assert_eq!(run_block_i32(block), 3);
}

#[test]
fn if_assign_then_branch() {
    assert_eq!(run_block_i32("{ let x = 0; if true { x = 7 } else { x = 3 }; x }"), 7);
}

#[test]
fn codegen_block_let_simple() {
    let src = r#"
    fn main() -> i32 {
        let a: i32 = 1;
        let b: i32 = 2;
        a + b
    }
    "#;
    assert_eq!(run_prog_i32(src), 3);
}

#[test]
fn codegen_block_let_shadow() {
    let src = r#"
    fn main() -> i32 {
        let a = 1;
        let b = 2;
        let a = 3;
        let b = 4;
        a + b
    }
    "#;
    assert_eq!(run_prog_i32(src), 7);
}

#[test]
fn codegen_local_block_scoping() {
    let src = r#"
    fn main() -> i32 {
        let a = 1;
        let b = {
            let b = a;
            b + 2
        };
        b
    }
    "#;
    assert_eq!(run_prog_i32(src), 3);
}

#[test]
fn codegen_local_fn_call() {
    let src = r#"
    fn main() -> i32 {
        fn add(i: i32, j: i32) -> i32 { i + j }
        add(10, 32)
    }
    "#;
    assert_eq!(run_prog_i32(src), 42);
}

#[test]
fn codegen_int_comparisons_and_bool_ops() {
    let src = r#"
    fn main() -> i32 {
        let b1 = 1 < 2;
        let b2 = 2 > 1;
        let b3 = 1 == 1;
        if b1 && b2 && b3 { 1 } else { 0 }
    }
    "#;
    assert_eq!(run_prog_i32(src), 1);
}

#[test]
fn codegen_while_loop() {
    let src = r#"
    fn main() -> i32 {
        let mut a = 2;
        let mut b = 0;
        while a > 0 {
            a = a - 1;
            b = b + 1;
        }
        b
    }
    "#;
    assert_eq!(run_prog_i32(src), 2);
}

#[test]
fn codegen_recursive_sum() {
    let src = r#"
    fn sum(n: i32) -> i32 {
        if n == 0 { 0 } else { n + sum(n - 1) }
    }
    fn main() -> i32 {
        sum(4)
    }
    "#;
    assert_eq!(run_prog_i32(src), 10);
}

#[test]
fn recursion_sum_yassine_taharaste() {
    let src = "
        fn main() { sum(3) }
        fn sum(n: i32) -> i32 { if n == 0 { 0 } else { n + sum(n-1) } }
    ";
    assert_eq!(run_prog_i32(src), 6);
}

#[test]
fn test_program_codegen() {
    let src = "
        fn main() {
            add2(0)
        }
        fn add2(x: i32) -> i32 {
            x+2
        }
        ";
    assert_eq!(run_prog_i32(src), 2)
}

#[test]
fn test_program_nested_call() {
    let src = "
        fn main() {
            add2(0)
        }
        fn add2(x: i32) -> i32 {
              add1(add1(x))
        }
        fn add1(x: i32) -> i32 {
            x+1
        }
        ";
    assert_eq!(run_prog_i32(src), 2)
}

#[test]
fn test_program_two_args() {
    let src = "
    fn main() {
        add(10, 32)
    }

    fn add(a: i32, b: i32) -> i32 {
        a + b
    }
    ";
    assert_eq!(run_prog_i32(src), 42);
}

#[test]
fn test_program_call_with_locals() {
    let src = "
    fn main() {
        foo(3)
    }

    fn foo(x: i32) -> i32 {
        let y = x + 2;    // y = 5
        let z = y + 1;    // z = 6
        z
    }
    ";
    assert_eq!(run_prog_i32(src), 6);
}

#[test]
fn test_program_if_inside_function() {
    let src = "
    fn main() {
        positive(5)
    }

    fn positive(x: i32) -> i32 {
        if x > 0 { 1 } else { 0 }
    }
    ";
    assert_eq!(run_prog_i32(src), 1);
}

#[test]
fn test_program_if_else_on_param() {
    let src = "
    fn main() {
        posneg(-3)
    }

    fn posneg(x: i32) -> i32 {
        if x > 0 { 1 } else { -1 }
    }
    ";
    assert_eq!(run_prog_i32(src), -1);
}

#[test]
fn test_program_while_in_function() {
    let src = "
    fn main() {
        countdown(3)
    }

    fn countdown(x: i32) -> i32 {
        while x > 0 {
            x = x - 1;
        };
        x
    }
    ";
    assert_eq!(run_prog_i32(src), 0);
}

#[test]
fn test_program_nested_blocks_in_function() {
    let src = "
    fn main() {
        calc(2)
    }

    fn calc(x: i32) -> i32 {
        {
            let y = x + 3;
            {
                let z = y + 4;
                z
            }
        }
    }
    ";
    assert_eq!(run_prog_i32(src), 9);
}

#[test]
fn test_program_unit_returning_function() {
    let src = "
    fn main() {
        do_nothing();
        ()
    }

    fn do_nothing() -> () {
        let x = 10;
    }
    ";
    assert_eq!(run_prog_i32(src), 0);
}

#[test]
fn test_program_call_defined_later() {
    let src = "
    fn main() {
        mul2(4)
    }

    // defined AFTER main to test forward references
    fn mul2(x: i32) -> i32 {
        x + x
    }
    ";
    assert_eq!(run_prog_i32(src), 8);
}

#[test]
fn test_program_local_shadowing() {
    let src = "
    fn main() {
        shadow(5)
    }

    fn shadow(x: i32) -> i32 {
        let x = x + 1;     // shadows parameter x
        let x = x + 1;     // shadows again
        x                  // should be 7
    }
    ";
    assert_eq!(run_prog_i32(src), 7);
}

#[test]
fn test_program_empty_block_and_unit_behavior() {
    let src = "
    fn main() {
        {};
        ()
    }
    ";
    assert_eq!(run_prog_i32(src), 0);
}

#[test]
fn block_trailing_semi_pushes_unit() {
    assert_eq!(run_block_i32("{ let x = 1; }"), 0);
}

#[test]
fn while_with_false_initial_condition_skips_body() {
    let src = r#"
    fn main() -> i32 {
        let mut x = 5;
        while x < 0 { x = x - 1; }
        x
    }
    "#;
    assert_eq!(run_prog_i32(src), 5);
}

#[test]
fn unit_returning_fn_call_does_not_corrupt_stack() {
    let src = r#"
    fn ping() -> () { let y = 10; }
    fn main() -> i32 {
        ping();
        9
    }
    "#;
    assert_eq!(run_prog_i32(src), 9);
}

#[test]
fn inner_shadow_does_not_leak_out_of_block() {
    let src = r#"
    fn main() -> i32 {
        let a = 1;
        {
            let a = 2;
            a; // inner value ignored after scope
        };
        a
    }
    "#;
    assert_eq!(run_prog_i32(src), 1);
}

#[test]
fn nested_local_function_is_scoped_and_callable() {
    let src = r#"
    fn main() -> i32 {
        fn outer(x: i32) -> i32 {
            fn inner(y: i32) -> i32 { y + 1 }
            inner(x) + 2
        }
        outer(3)
    }
    "#;
    assert_eq!(run_prog_i32(src), 6);
}

#[test]
fn nested_local_function_is_scoped_and_callable_with_shadowing() {
    let src = r#"
    fn main() -> i32 {
        fn inner() {};
        fn outer(x: i32) -> i32 {
            fn inner(y: i32) -> i32 { y + 1 }
            inner(x) + 2
        }
        outer(3)

    }
    "#;
    assert_eq!(run_prog_i32(src), 6);
}

// ---------------------------------------------------------------------------
// The instructions themselves

fn lines(instrs: &Vec<Instr>) -> Vec<String> {
    format_instrs(instrs)
}

#[test]
fn codegen_sum_instructions() {
    let e: Expr = parse("1 + 2");
    let text = lines(&expr_instrs(&e).unwrap());
    let expected: Vec<String> = vec![
        "           addi t0 zero 1",
        "           addiu sp sp -4",
        "           sw t0 0 sp",
        "           addi t0 zero 2",
        "           addiu sp sp -4",
        "           sw t0 0 sp",
        "           lw t1 0 sp",
        "           addiu sp sp 4",
        "           lw t0 0 sp",
        "           addiu sp sp 4",
        "           add t0 t0 t1",
        "           addiu sp sp -4",
        "           sw t0 0 sp",
    ]
    .into_iter()
    .map(String::from)
    .collect();
    assert_eq!(text, expected);
}

#[test]
fn codegen_prog_labels_and_frame() {
    let p: Prog = parse("fn main() -> i32 { let x = 1; x }");
    let text = lines(&prog_instrs(&p).unwrap());
    assert_eq!(text[0], "           b main");
    assert_eq!(text[1], "main       addu zero zero zero");
    // The frame holds one local: its size is filled in after the body.
    assert_eq!(text[7], "           addiu sp sp -4");
    assert_eq!(text.last().unwrap(), "           halt");
}

#[test]
fn codegen_function_labels_are_numbered() {
    let p: Prog = parse("fn main() { f() } fn f() -> i32 { 1 }");
    let text = lines(&prog_instrs(&p).unwrap());
    assert!(text.contains(&"fn_2_f     addu zero zero zero".to_string()));
    assert!(text.contains(&"           bal fn_2_f".to_string()));
    assert!(text.contains(&"           jr ra".to_string()));
}

#[test]
fn codegen_eq_uses_fresh_labels() {
    let e: Expr = parse("1 == 1");
    let text = lines(&expr_instrs(&e).unwrap());
    assert!(text.contains(&"           beq t0 t1 label_0_equal".to_string()));
    assert!(text.contains(&"label_0_equal addu zero zero zero".to_string()));
    assert!(text.contains(&"label_1_done addu zero zero zero".to_string()));
}

#[test]
fn codegen_rejects_multiplication() {
    let e: Expr = parse("2 * 3");
    match expr_instrs(&e) {
        Err(Error::CodeGen(CodeGenError::UnsupportedOperator(BinOp::Mul))) => {}
        other => panic!("unexpected {:?}", other),
    }
    let e: Expr = parse("6 / 3");
    match expr_instrs(&e) {
        Err(Error::CodeGen(CodeGenError::UnsupportedOperator(BinOp::Div))) => {}
        other => panic!("unexpected {:?}", other),
    }
}

#[test]
fn codegen_rejects_strings() {
    let e: Expr = parse("\"text\"");
    match expr_instrs(&e) {
        Err(Error::CodeGen(CodeGenError::UnsupportedLiteral(Literal::String(s)))) => assert_eq!(s, "text"),
        other => panic!("unexpected {:?}", other),
    }
}

#[test]
fn codegen_undefined_names() {
    let e: Expr = parse("y + 1");
    match expr_instrs(&e) {
        Err(Error::CodeGen(CodeGenError::UndefinedValue(s))) => assert_eq!(s, "y"),
        other => panic!("unexpected {:?}", other),
    }
    let e: Expr = parse("g(1)");
    match expr_instrs(&e) {
        Err(Error::CodeGen(CodeGenError::UndefinedFunction(s))) => assert_eq!(s, "g"),
        other => panic!("unexpected {:?}", other),
    }
    let p: Prog = parse("fn f() {}");
    match prog_instrs(&p) {
        Err(Error::CodeGen(CodeGenError::UndefinedFunction(s))) => assert_eq!(s, "main"),
        other => panic!("unexpected {:?}", other),
    }
}

#[test]
fn codegen_assignment_to_non_ident() {
    let b: Block = parse("{ let x = 1; (x) = 2; x }");
    match block_instrs(&b) {
        Err(Error::CodeGen(CodeGenError::AssignmentToNonIdent(s))) => assert_eq!(s, "(x)"),
        other => panic!("unexpected {:?}", other),
    }
}

#[test]
fn codegen_env_labels() {
    let mut env = CodeGenEnv::new();
    assert_eq!(env.define_label("loop").unwrap(), "label_0_loop");
    assert_eq!(env.define_label("loop").unwrap(), "label_1_loop");
    env.define_function_label("main").unwrap();
    env.define_function_label("helper").unwrap();
    assert_eq!(env.lookup_label("main").unwrap(), "main");
    assert_eq!(env.lookup_label("helper").unwrap(), "fn_4_helper");
    assert!(env.lookup_label("other").is_err());
    assert!(env.lookup_value_offset("x").is_err());
}

#[test]
fn codegen_vm_keeps_instructions() {
    let mut cg = CodegenVm::new();
    let e: Expr = parse("7");
    cg.codegen_expr(&e).unwrap();
    assert_eq!(cg.instructions().len(), 3);
    assert_eq!(run_instrs(cg.instructions()), 7);
}

#[test]
fn pipeline_code_gen_lines() {
    let p: Prog = parse("fn main() -> i32 { 5 }");
    let text = rnr::pipeline::code_gen(&p).unwrap();
    assert_eq!(text[0], "           b main");
    assert_eq!(text[1], "main       addu zero zero zero");
    assert_eq!(text.last().unwrap(), "           halt");
    let p: Prog = parse("fn main() -> i32 { 5 * 2 }");
    assert!(matches!(
        rnr::pipeline::code_gen(&p),
        Err(Error::CodeGen(CodeGenError::UnsupportedOperator(BinOp::Mul)))
    ));
}
