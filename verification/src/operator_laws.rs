use vstd::prelude::*;
use crate::ast::{BinOp, SpecExpr, SpecExprKind, SpecLiteral, SpecStatement, SpecStmtKind, TypeExpr, UnOp};
use crate::code_gen::{
    CgState, Op, Reg, SpecInstr, binop_op, cg_binop, define_label_spec, emit, lit_op, nop_at, plain, pop_code, push_code,
    unop_op,
};
use crate::env::{AnnotatedType, lookup_binding_in};
use crate::display::{binop_text, expr_text, exprs_join, kind_text, unop_text};
use crate::error::{ErrRange, ParseError};
use crate::lexer::{Punct, SpecToken, SpecTokenKind, punct_at};
use crate::parse::{binop_of, unop_of, peek_binop, span_of, spec_binop_rest, spec_expr, spec_operand};
use crate::type_check::{AssignmentErrorKind, SpecTypeError, TcState, tc_expr, tc_stmt};
use crate::error::SpecVmError;
use crate::vm::{SpecVal, bin_op_spec};

verus! {

// ---------------------------------------------------------------------------
// The evaluator

pub open spec fn bool_val(b: bool) -> SpecVal {
    SpecVal::Lit(SpecLiteral::Bool(b))
}

pub open spec fn int_val(i: int) -> SpecVal {
    SpecVal::Lit(SpecLiteral::Int(i as i32))
}

/// On booleans, `&&` is conjunction, `||` disjunction and `==` equality.
pub proof fn law_bool_operators(a: bool, b: bool)
    ensures
        bin_op_spec(BinOp::And, bool_val(a), bool_val(b)) == Ok::<SpecVal, SpecVmError>(bool_val(a && b)),
        bin_op_spec(BinOp::Or, bool_val(a), bool_val(b)) == Ok::<SpecVal, SpecVmError>(bool_val(a || b)),
        bin_op_spec(BinOp::Eq, bool_val(a), bool_val(b)) == Ok::<SpecVal, SpecVmError>(bool_val(a == b)),
        bin_op_spec(BinOp::Or, bool_val(true), bool_val(b)) == Ok::<SpecVal, SpecVmError>(bool_val(true)),
        bin_op_spec(BinOp::And, bool_val(false), bool_val(b)) == Ok::<SpecVal, SpecVmError>(bool_val(false)),
{
}

/// On integers, `<`, `>` and `==` compare; `+`, `-` and `*` compute the exact result
/// where it fits in an `i32` and fail with `Overflow` where it does not; `/` fails on
/// a zero divisor.
pub proof fn law_int_operators(x: i32, y: i32)
    ensures
        bin_op_spec(BinOp::Lt, int_val(x as int), int_val(y as int)) == Ok::<SpecVal, SpecVmError>(bool_val(x < y)),
        bin_op_spec(BinOp::Gt, int_val(x as int), int_val(y as int)) == Ok::<SpecVal, SpecVmError>(bool_val(x > y)),
        bin_op_spec(BinOp::Eq, int_val(x as int), int_val(y as int)) == Ok::<SpecVal, SpecVmError>(bool_val(x == y)),
        i32::MIN <= x + y <= i32::MAX ==> bin_op_spec(BinOp::Add, int_val(x as int), int_val(y as int))
            == Ok::<SpecVal, SpecVmError>(int_val(x + y)),
        !(i32::MIN <= x + y <= i32::MAX) ==> bin_op_spec(BinOp::Add, int_val(x as int), int_val(y as int))
            == Err::<SpecVal, SpecVmError>(SpecVmError::Overflow),
        i32::MIN <= x - y <= i32::MAX ==> bin_op_spec(BinOp::Sub, int_val(x as int), int_val(y as int))
            == Ok::<SpecVal, SpecVmError>(int_val(x - y)),
        !(i32::MIN <= x - y <= i32::MAX) ==> bin_op_spec(BinOp::Sub, int_val(x as int), int_val(y as int))
            == Err::<SpecVal, SpecVmError>(SpecVmError::Overflow),
        i32::MIN <= x * y <= i32::MAX ==> bin_op_spec(BinOp::Mul, int_val(x as int), int_val(y as int))
            == Ok::<SpecVal, SpecVmError>(int_val(x * y)),
        y == 0 ==> bin_op_spec(BinOp::Div, int_val(x as int), int_val(y as int))
            == Err::<SpecVal, SpecVmError>(SpecVmError::DivisionByZero),
{
    assert(int_val(x as int) == SpecVal::Lit(SpecLiteral::Int(x)));
    assert(int_val(y as int) == SpecVal::Lit(SpecLiteral::Int(y)));
}

// ---------------------------------------------------------------------------
// The stack machine

/// A boolean as a machine word: 1 for true, 0 for false.
pub open spec fn word_of_bool(b: bool) -> i32 {
    if b { 1i32 } else { 0i32 }
}

/// What a register holds, given the words in `t0` and `t1`; `zero` reads as 0.
pub open spec fn reg_word(r: Reg, t0: i32, t1: i32) -> Option<i32> {
    match r {
        Reg::Zero => Some(0i32),
        Reg::T0 => Some(t0),
        Reg::T1 => Some(t1),
        _ => None,
    }
}

/// The word a register-to-register instruction writes to `t0`, as the MIPS manual
/// defines the instruction: `add`/`sub`/`addi` (exact, trapping on overflow),
/// `addu`/`subu`/`addiu` (wrapping), `and`, `or` (bitwise), `slt` (1 when the first source is less than
/// the second), `xori` (bitwise exclusive or with the immediate). `None` for another
/// destination, another operand register, a trap, or another instruction.
pub open spec fn alu_t0(o: Op<Seq<char>>, t0: i32, t1: i32) -> Option<i32> {
    match o {
        Op::Add(Reg::T0, a, b) => match (reg_word(a, t0, t1), reg_word(b, t0, t1)) {
            (Some(x), Some(y)) => if i32::MIN <= x + y <= i32::MAX { Some((x + y) as i32) } else { None },
            _ => None,
        },
        Op::Sub(Reg::T0, a, b) => match (reg_word(a, t0, t1), reg_word(b, t0, t1)) {
            (Some(x), Some(y)) => if i32::MIN <= x - y <= i32::MAX { Some((x - y) as i32) } else { None },
            _ => None,
        },
        Op::Addu(Reg::T0, a, b) => match (reg_word(a, t0, t1), reg_word(b, t0, t1)) {
            (Some(x), Some(y)) => Some((x + y) as i32),
            _ => None,
        },
        Op::Addi(Reg::T0, a, imm) => match reg_word(a, t0, t1) {
            Some(x) => if i32::MIN <= x + imm <= i32::MAX { Some((x + imm) as i32) } else { None },
            _ => None,
        },
        Op::Addiu(Reg::T0, a, imm) => match reg_word(a, t0, t1) {
            Some(x) => Some((x + imm) as i32),
            _ => None,
        },
        Op::Subu(Reg::T0, a, b) => match (reg_word(a, t0, t1), reg_word(b, t0, t1)) {
            (Some(x), Some(y)) => Some((x - y) as i32),
            _ => None,
        },
        Op::And(Reg::T0, a, b) => match (reg_word(a, t0, t1), reg_word(b, t0, t1)) {
            (Some(x), Some(y)) => Some(x & y),
            _ => None,
        },
        Op::Or(Reg::T0, a, b) => match (reg_word(a, t0, t1), reg_word(b, t0, t1)) {
            (Some(x), Some(y)) => Some(x | y),
            _ => None,
        },
        Op::Slt(Reg::T0, a, b) => match (reg_word(a, t0, t1), reg_word(b, t0, t1)) {
            (Some(x), Some(y)) => Some(word_of_bool(x < y)),
            _ => None,
        },
        Op::Xori(Reg::T0, a, imm) => match reg_word(a, t0, t1) {
            Some(x) => Some(x ^ (imm as i32)),
            _ => None,
        },
        _ => None,
    }
}

proof fn lemma_bool_words(a: bool, b: bool)
    ensures
        word_of_bool(a) | word_of_bool(b) == word_of_bool(a || b),
        word_of_bool(a) & word_of_bool(b) == word_of_bool(a && b),
        word_of_bool(a) ^ 1i32 == word_of_bool(!a),
{
    assert(0i32 | 0i32 == 0i32) by (bit_vector);
    assert(0i32 | 1i32 == 1i32) by (bit_vector);
    assert(1i32 | 0i32 == 1i32) by (bit_vector);
    assert(1i32 | 1i32 == 1i32) by (bit_vector);
    assert(0i32 & 0i32 == 0i32) by (bit_vector);
    assert(0i32 & 1i32 == 0i32) by (bit_vector);
    assert(1i32 & 0i32 == 0i32) by (bit_vector);
    assert(1i32 & 1i32 == 1i32) by (bit_vector);
    assert(0i32 ^ 1i32 == 1i32) by (bit_vector);
    assert(1i32 ^ 1i32 == 0i32) by (bit_vector);
}

/// The code of a binary operator other than `*`, `/` and `==` pops the right operand
/// into `t1` and the left into `t0`, runs one instruction that leaves the result in
/// `t0`, and pushes it. That instruction computes what the operator means: on the
/// words of two booleans, `&&` and `||` give the word of their conjunction and
/// disjunction; on two integers, `<` and `>` give the word of the comparison, and
/// `+` and `-` the exact sum and difference where it fits.
pub proof fn law_cg_binop_computes(s: CgState, op: BinOp, a: bool, b: bool, x: i32, y: i32)
    requires
        op != BinOp::Mul,
        op != BinOp::Div,
        op != BinOp::Eq,
    ensures
        cg_binop(s, op) == Ok::<CgState, crate::error::SpecCodeGenError>(
            emit(s, pop_code(Reg::T1) + pop_code(Reg::T0) + seq![plain(binop_op(op))] + push_code(Reg::T0)),
        ),
        op == BinOp::And ==> alu_t0(binop_op(op), word_of_bool(a), word_of_bool(b)) == Some(word_of_bool(a && b)),
        op == BinOp::Or ==> alu_t0(binop_op(op), word_of_bool(a), word_of_bool(b)) == Some(word_of_bool(a || b)),
        op == BinOp::Lt ==> alu_t0(binop_op(op), x, y) == Some(word_of_bool(x < y)),
        op == BinOp::Gt ==> alu_t0(binop_op(op), x, y) == Some(word_of_bool(x > y)),
        op == BinOp::Add && i32::MIN <= x + y <= i32::MAX ==> alu_t0(binop_op(op), x, y) == Some((x + y) as i32),
        op == BinOp::Sub && i32::MIN <= x - y <= i32::MAX ==> alu_t0(binop_op(op), x, y) == Some((x - y) as i32),
{
    lemma_bool_words(a, b);
}

/// The index of the first instruction from `i` on that carries label `l`, or -1.
pub open spec fn label_index(code: Seq<SpecInstr>, l: Seq<char>, i: int) -> int
    decreases code.len() - i,
{
    if i < 0 || i >= code.len() {
        -1
    } else if code[i].label == Some(l) {
        i
    } else {
        label_index(code, l, i + 1)
    }
}

/// The word in `t0` once straight-line code with forward branches, started at `pc`
/// with `t0` and `t1` holding the given words, runs off its end: `beq` jumps to its
/// label when its registers hold equal words, `b` always jumps, `addu zero zero zero`
/// does nothing, and every other instruction writes `t0` as [`alu_t0`] says. `None`
/// where it jumps outside the code, traps, or takes more than `fuel` steps.
pub open spec fn run_t0(code: Seq<SpecInstr>, pc: int, t0: i32, t1: i32, fuel: nat) -> Option<i32>
    decreases fuel,
{
    if pc < 0 || pc > code.len() {
        None
    } else if pc == code.len() {
        Some(t0)
    } else if fuel == 0 {
        None
    } else {
        match code[pc].op {
            Op::Beq(a, b, l) => match (reg_word(a, t0, t1), reg_word(b, t0, t1)) {
                (Some(x), Some(y)) => if x == y {
                    run_t0(code, label_index(code, l, 0), t0, t1, (fuel - 1) as nat)
                } else {
                    run_t0(code, pc + 1, t0, t1, (fuel - 1) as nat)
                },
                _ => None,
            },
            Op::B(l) => run_t0(code, label_index(code, l, 0), t0, t1, (fuel - 1) as nat),
            Op::Addu(Reg::Zero, Reg::Zero, Reg::Zero) => run_t0(code, pc + 1, t0, t1, (fuel - 1) as nat),
            o => match alu_t0(o, t0, t1) {
                Some(v) => run_t0(code, pc + 1, v, t1, (fuel - 1) as nat),
                None => None,
            },
        }
    }
}

/// The code of `==` pops the right operand into `t1` and the left into `t0`, then
/// runs code that leaves in `t0` the word of whether the two words are equal, and
/// pushes it.
pub proof fn law_cg_eq_computes(s: CgState, x: i32, y: i32)
    ensures
        cg_binop(s, BinOp::Eq) matches Ok(s2) ==> exists|mid: Seq<SpecInstr>|
            #![trigger run_t0(mid, 0, x, y, mid.len())]
            s2.instrs == s.instrs + pop_code(Reg::T1) + pop_code(Reg::T0) + mid + push_code(Reg::T0)
                && run_t0(mid, 0, x, y, mid.len()) == Some(word_of_bool(x == y)),
{
    match define_label_spec(s, "equal"@) {
        Err(_) => {},
        Ok((eq_l, s1)) => match define_label_spec(s1, "done"@) {
            Err(_) => {},
            Ok((done_l, sl)) => {
                let mid = seq![
                    plain(Op::Beq(Reg::T0, Reg::T1, eq_l)),
                    plain(Op::Addu(Reg::T0, Reg::Zero, Reg::Zero)),
                    plain(Op::B(done_l)),
                    nop_at(eq_l),
                    plain(Op::Addiu(Reg::T0, Reg::Zero, 1)),
                    nop_at(done_l),
                ];
                reveal_strlit("equal");
                reveal_strlit("done");
                assert(eq_l.last() == 'l');
                assert(done_l.last() == 'e');
                assert(eq_l != done_l);
                assert(label_index(mid, done_l, 5) == 5);
                assert(label_index(mid, done_l, 4) == 5);
                assert(label_index(mid, done_l, 3) == 5);
                assert(label_index(mid, done_l, 2) == 5);
                assert(label_index(mid, done_l, 1) == 5);
                assert(label_index(mid, done_l, 0) == 5);
                assert(label_index(mid, eq_l, 3) == 3);
                assert(label_index(mid, eq_l, 2) == 3);
                assert(label_index(mid, eq_l, 1) == 3);
                assert(label_index(mid, eq_l, 0) == 3);
                assert(run_t0(mid, 6, 1i32, y, 2) == Some(1i32));
                assert(run_t0(mid, 5, 1i32, y, 3) == Some(1i32));
                assert(run_t0(mid, 4, x, y, 4) == Some(1i32));
                assert(run_t0(mid, 3, x, y, 5) == Some(1i32));
                assert(run_t0(mid, 6, 0i32, y, 2) == Some(0i32));
                assert(run_t0(mid, 5, 0i32, y, 3) == Some(0i32));
                assert(run_t0(mid, 2, 0i32, y, 4) == Some(0i32));
                assert(run_t0(mid, 1, x, y, 5) == Some(0i32));
                assert(run_t0(mid, 0, x, y, 6) == Some(word_of_bool(x == y)));
                assert(cg_binop(s, BinOp::Eq) == Ok::<CgState, crate::error::SpecCodeGenError>(
                    emit(sl, pop_code(Reg::T1) + pop_code(Reg::T0) + mid + push_code(Reg::T0)),
                ));
                assert(sl.instrs == s.instrs);
                assert(s.instrs + (pop_code(Reg::T1) + pop_code(Reg::T0) + mid + push_code(Reg::T0))
                    =~= s.instrs + pop_code(Reg::T1) + pop_code(Reg::T0) + mid + push_code(Reg::T0));
            },
        },
    }
}

/// The instruction that loads a literal leaves its word in `t0`: 1 or 0 for a
/// boolean, the number for an integer that fits in 16 bits, 0 for unit.
pub proof fn law_cg_literal_word(b: bool, i: i32, t0: i32, t1: i32)
    ensures
        lit_op(SpecLiteral::Bool(b)) matches Some(o) && alu_t0(o, t0, t1) == Some(word_of_bool(b)),
        i16::MIN <= i <= i16::MAX ==> (lit_op(SpecLiteral::Int(i)) matches Some(o) && alu_t0(o, t0, t1) == Some(i)),
        lit_op(SpecLiteral::Unit) matches Some(o) && alu_t0(o, t0, t1) == Some(0i32),
{
}

/// The code of `-` leaves the negation of the word in `t0`, and that of `!` the word
/// of the negated boolean.
pub proof fn law_cg_unop_computes(a: bool, x: i32)
    ensures
        x != i32::MIN ==> alu_t0(unop_op(UnOp::Neg), x, 0) == Some((-x) as i32),
        alu_t0(unop_op(UnOp::Bang), word_of_bool(a), 0) == Some(word_of_bool(!a)),
{
    lemma_bool_words(a, a);
}

// ---------------------------------------------------------------------------
// The type checker on `let` and assignment

/// After `let mut x = e`, with or without a type annotation, `x` is bound in the
/// innermost scope as mutable and initialized, with the type of the `let`; an
/// assignment `x = e2` whose right side has that type then adds no error beyond
/// those of `e2` itself. After `let x = e` without `mut`, the same assignment adds
/// exactly one error: the binding is not mutable, pointing at the `let`.
pub proof fn law_let_mut_then_assign(
    st: TcState,
    mutable: bool,
    id: Seq<char>,
    ty: Option<TypeExpr>,
    init: SpecExpr,
    rhs: SpecExpr,
    let_span: ErrRange,
    lhs_span: ErrRange,
    assign_span: ErrRange,
)
    requires
        st.scopes.bindings.len() >= 1,
    ensures
        ({
            let let_stmt = SpecStatement { node: SpecStmtKind::Let(mutable, id, ty, Some(init)), span: let_span };
            let st1 = tc_stmt(st, let_stmt).1;
            let t1 = tc_stmt(st, let_stmt).0;
            let lhs = SpecExpr { node: SpecExprKind::Ident(id), span: lhs_span };
            let assign = SpecStatement { node: SpecStmtKind::Assign(lhs, rhs), span: assign_span };
            let tr = tc_expr(st1, rhs);
            &&& lookup_binding_in(st1.scopes.bindings, id) == Some(
                AnnotatedType { ty: t1, mutable, is_initialized: true, decl_span: let_span },
            )
            &&& (tr.0.ty == t1.ty && t1.ty is Some && mutable) ==> tc_stmt(st1, assign).1.errors == tr.1.errors
            &&& (tr.0.ty == t1.ty && t1.ty is Some && !mutable) ==> tc_stmt(st1, assign).1.errors == tr.1.errors.push(
                SpecTypeError::Assignment { kind: AssignmentErrorKind::NotMutable, span: lhs_span, decl_span: let_span },
            )
        }),
{
    crate::laws::law_tc_expr_keeps_scopes(st, init);
    let let_stmt = SpecStatement { node: SpecStmtKind::Let(mutable, id, ty, Some(init)), span: let_span };
    let st1 = tc_stmt(st, let_stmt).1;
    let bs = st1.scopes.bindings;
    assert(bs.last().contains_key(id));
    crate::laws::law_tc_expr_keeps_scopes(st1, rhs);
}

// ---------------------------------------------------------------------------
// Grouping of binary operators

/// The precedence levels of Rust's binary operators, loosest first: `||`, then `&&`,
/// then the comparisons, then `+` and `-`, then `*` and `/`.
pub open spec fn rust_level(op: BinOp) -> int {
    match op {
        BinOp::Or => 0,
        BinOp::And => 1,
        BinOp::Eq | BinOp::Lt | BinOp::Gt => 2,
        BinOp::Add | BinOp::Sub => 3,
        BinOp::Mul | BinOp::Div => 4,
    }
}

/// The priorities order the binary operators as Rust's precedence levels do, and a
/// unary operator binds tighter than any of them.
pub proof fn law_priority_order(p: BinOp, q: BinOp, u: UnOp)
    ensures
        (p.spec_priority() < q.spec_priority()) == (rust_level(p) < rust_level(q)),
        (p.spec_priority() == q.spec_priority()) == (rust_level(p) == rust_level(q)),
        u.spec_priority() > p.spec_priority(),
{
}

/// The single-name operand `name` at position `p`, spanning that token.
pub open spec fn name_at(t: Seq<SpecToken>, p: int, name: Seq<char>) -> SpecExpr {
    SpecExpr { node: SpecExprKind::Ident(name), span: span_of(t, p, p + 1) }
}

/// `a o b`, spanning both operands.
pub open spec fn bin(o: BinOp, l: SpecExpr, r: SpecExpr) -> SpecExpr {
    SpecExpr { node: SpecExprKind::BinOp(o, Box::new(l), Box::new(r)), span: l.span.spec_join(r.span) }
}

/// Parsing `a o1 b o2 c`, three names and two binary operators, consumes all five
/// tokens. Where `o2` binds tighter than `o1` (as in `a < b + c`), `o1` is at the
/// root with `b o2 c` as its right operand; otherwise (as in `a + b < c`, or
/// `a - b - c`) the operators group to the left, with `a o1 b` as the left operand
/// of `o2`.
pub proof fn law_parse_two_operators(
    t: Seq<SpecToken>,
    a: Seq<char>,
    b: Seq<char>,
    c: Seq<char>,
    x1: Punct,
    x2: Punct,
    o1: BinOp,
    o2: BinOp,
)
    requires
        t.len() == 5,
        t[0].kind == SpecTokenKind::Ident(a),
        t[1].kind == SpecTokenKind::Punct(x1),
        t[2].kind == SpecTokenKind::Ident(b),
        t[3].kind == SpecTokenKind::Punct(x2),
        t[4].kind == SpecTokenKind::Ident(c),
        binop_of(x1) == Some(o1),
        binop_of(x2) == Some(o2),
    ensures
        rust_level(o1) < rust_level(o2) ==> spec_expr(t, 0) == Ok::<(SpecExpr, int), ParseError>(
            (bin(o1, name_at(t, 0, a), bin(o2, name_at(t, 2, b), name_at(t, 4, c))), 5),
        ),
        rust_level(o1) >= rust_level(o2) ==> spec_expr(t, 0) == Ok::<(SpecExpr, int), ParseError>(
            (bin(o2, bin(o1, name_at(t, 0, a), name_at(t, 2, b)), name_at(t, 4, c)), 5),
        ),
{
    let ea = name_at(t, 0, a);
    let eb = name_at(t, 2, b);
    let ec = name_at(t, 4, c);
    let p1 = o1.spec_priority() as int;
    let p2 = o2.spec_priority() as int;
    assert(spec_operand(t, 0) == Ok::<(SpecExpr, int), ParseError>((ea, 1)));
    assert(spec_operand(t, 2) == Ok::<(SpecExpr, int), ParseError>((eb, 3)));
    assert(spec_operand(t, 4) == Ok::<(SpecExpr, int), ParseError>((ec, 5)));
    assert(peek_binop(t, 1) == Some(o1));
    assert(peek_binop(t, 3) == Some(o2));
    assert(peek_binop(t, 5) is None);
    if rust_level(o1) < rust_level(o2) {
        assert(p1 < p2);
        assert(spec_binop_rest(t, 5, ec, p2 + 1) == Ok::<(SpecExpr, int), ParseError>((ec, 5)));
        let r = bin(o2, eb, ec);
        assert(spec_binop_rest(t, 5, r, p1 + 1) == Ok::<(SpecExpr, int), ParseError>((r, 5)));
        assert(spec_binop_rest(t, 3, eb, p1 + 1) == Ok::<(SpecExpr, int), ParseError>((r, 5)));
        let whole = bin(o1, ea, r);
        assert(spec_binop_rest(t, 5, whole, 0) == Ok::<(SpecExpr, int), ParseError>((whole, 5)));
        assert(spec_binop_rest(t, 1, ea, 0) == Ok::<(SpecExpr, int), ParseError>((whole, 5)));
    } else {
        assert(p2 < p1 + 1);
        assert(spec_binop_rest(t, 3, eb, p1 + 1) == Ok::<(SpecExpr, int), ParseError>((eb, 3)));
        let l = bin(o1, ea, eb);
        assert(spec_binop_rest(t, 5, ec, p2 + 1) == Ok::<(SpecExpr, int), ParseError>((ec, 5)));
        let whole = bin(o2, l, ec);
        assert(spec_binop_rest(t, 5, whole, 0) == Ok::<(SpecExpr, int), ParseError>((whole, 5)));
        assert(spec_binop_rest(t, 3, l, 0) == Ok::<(SpecExpr, int), ParseError>((whole, 5)));
        assert(spec_binop_rest(t, 1, ea, 0) == Ok::<(SpecExpr, int), ParseError>((whole, 5)));
    }
}

// ---------------------------------------------------------------------------
// Text of calls

proof fn lemma_join_prefix(es: Seq<SpecExpr>, e: SpecExpr, k: int)
    requires
        0 <= k <= es.len(),
    ensures
        exprs_join(es.push(e), k) == exprs_join(es, k),
    decreases k,
{
    if k > 1 {
        lemma_join_prefix(es, e, k - 1);
        assert(es.push(e)[k - 1] == es[k - 1]);
    } else if k == 1 {
        assert(es.push(e)[0] == es[0]);
    }
}

/// A call with no arguments is written `f()`. Adding an argument to a call writes
/// its text before the closing parenthesis: alone after the opening one where it is
/// the first, else after the text of the earlier arguments and a comma and a space.
pub proof fn law_call_text_adds_argument(f: Seq<char>, es: Seq<SpecExpr>, e: SpecExpr)
    ensures
        kind_text(SpecExprKind::Call(f, seq![])) == f + seq!['(', ')'],
        es.len() == 0 ==> kind_text(SpecExprKind::Call(f, es.push(e))) == f + seq!['('] + expr_text(e) + seq![')'],
        es.len() > 0 ==> kind_text(SpecExprKind::Call(f, es.push(e))) == kind_text(SpecExprKind::Call(f, es)).drop_last()
            + seq![',', ' '] + expr_text(e) + seq![')'],
{
    assert(exprs_join(seq![], 0) == Seq::<char>::empty());
    assert(f + seq!['('] + Seq::<char>::empty() + seq![')'] =~= f + seq!['(', ')']);
    let n = es.len() as int;
    if n == 0 {
        assert(es.push(e)[0] == e);
    } else {
        lemma_join_prefix(es, e, n);
        assert(es.push(e)[n] == e);
        let inner = f + seq!['('] + exprs_join(es, n);
        assert((inner + seq![')']).drop_last() =~= inner);
        assert(f + seq!['('] + (exprs_join(es, n) + seq![',', ' '] + expr_text(e)) + seq![')']
            =~= inner + seq![',', ' '] + expr_text(e) + seq![')']);
    }
}

/// A call with two arguments is written `f(a, b)`.
pub proof fn law_call_text_two_arguments(f: Seq<char>, a: SpecExpr, b: SpecExpr)
    ensures
        kind_text(SpecExprKind::Call(f, seq![a, b])) == f + seq!['('] + expr_text(a) + seq![',', ' '] + expr_text(b)
            + seq![')'],
{
    law_call_text_adds_argument(f, seq![a], b);
    law_call_text_adds_argument(f, seq![], a);
    assert(seq![a].push(b) =~= seq![a, b]);
    assert(Seq::<SpecExpr>::empty().push(a) =~= seq![a]);
    let one = f + seq!['('] + expr_text(a) + seq![')'];
    assert(one.drop_last() =~= f + seq!['('] + expr_text(a));
    assert(f + seq!['('] + expr_text(a) + seq![',', ' '] + expr_text(b) + seq![')']
        =~= one.drop_last() + seq![',', ' '] + expr_text(b) + seq![')']);
}

/// The text the printer writes for each operator, followed by the space it writes
/// after it, is read back by the lexer as one punctuation token that the parser takes
/// for the same operator; the `, ` between call arguments is read back as a comma.
pub proof fn law_operator_text_reads_back(op: BinOp, u: UnOp)
    ensures
        punct_at(binop_text(op) + seq![' '], 0) matches Some((x, n)) && n == binop_text(op).len()
            && binop_of(x) == Some(op),
        punct_at(unop_text(u) + seq![' '], 0) matches Some((x, n)) && n == 1 && unop_of(x) == Some(u),
        punct_at(seq![',', ' '], 0) == Some((Punct::Comma, 1int)),
{
}

} // verus!
