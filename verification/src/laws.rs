use vstd::prelude::*;
use crate::ast::{SpecBlock, SpecExpr, SpecExprKind, SpecFnDecl, SpecStatement, SpecStmtKind};
use crate::code_gen::{
    CgState, Op, Reg, cg_args, cg_block, cg_block_expr, cg_block_item, cg_call, cg_call_impl, cg_expr, cg_fn_decl,
    cg_stmt, cg_stmts, define_label_spec, emit, lookup_label_in, nop_at, plain, pop_code, push_code, semi_unit,
};
use crate::env::{Machine, assign_in, define_top, lookup_fn_in, lookup_value_in, pop_top, strip_mut};
use crate::error::SpecVmError;
use crate::type_check::{
    TcState, tc_block, tc_call, tc_call_args, tc_expr, tc_println_rest, tc_stmt, tc_stmts, try_unify_spec, report_spec,
};
use crate::vm::{
    SpecVal, call_spec, eval_args_spec, eval_block_spec, eval_expr_spec, eval_stmt_spec, eval_stmts_spec,
    eval_while_spec,
};

verus! {

// ---------------------------------------------------------------------------
// Scopes of values and functions

/// A name reads as the value just bound to it, seen through `mut`.
pub proof fn law_lookup_after_define(values: Seq<Map<Seq<char>, SpecVal>>, id: Seq<char>, v: SpecVal)
    requires
        values.len() >= 1,
    ensures
        lookup_value_in(define_top(values, id, v), id) == Some(strip_mut(v)),
{
    let d = define_top(values, id, v);
    assert(d.last() == values.last().insert(id, v));
}

/// Binding a name leaves what every other name reads as it was.
pub proof fn law_define_keeps_others(values: Seq<Map<Seq<char>, SpecVal>>, id: Seq<char>, other: Seq<char>, v: SpecVal)
    requires
        values.len() >= 1,
        id != other,
    ensures
        lookup_value_in(define_top(values, id, v), other) == lookup_value_in(values, other),
{
    let d = define_top(values, id, v);
    assert(d.drop_last() =~= values.drop_last());
    assert(d.last().contains_key(other) == values.last().contains_key(other));
    if values.last().contains_key(other) {
        assert(d.last()[other] == values.last()[other]);
    }
}

/// Assignment succeeds exactly where some scope binds the name; the name then reads
/// as the assigned value, and there are as many scopes as before.
pub proof fn law_assign_then_lookup(values: Seq<Map<Seq<char>, SpecVal>>, id: Seq<char>, v: SpecVal)
    requires
        !(v is Mut),
    ensures
        (assign_in(values, id, v) is Some) == (lookup_value_in(values, id) is Some),
        assign_in(values, id, v) matches Some(vs) ==> lookup_value_in(vs, id) == Some(v) && vs.len() == values.len(),
    decreases values.len(),
{
    if values.len() > 0 && !values.last().contains_key(id) {
        law_assign_then_lookup(values.drop_last(), id, v);
        match assign_in(values.drop_last(), id, v) {
            Some(vs) => {
                assert(vs.push(values.last()).drop_last() =~= vs);
            },
            None => {},
        }
    }
}

/// A function reads as the declaration just made in the innermost scope.
pub proof fn law_lookup_fn_after_define(fs: Seq<Map<Seq<char>, SpecFnDecl>>, f: SpecFnDecl)
    requires
        fs.len() >= 1,
    ensures
        lookup_fn_in(define_top(fs, f.id, f), f.id) == Some(((fs.len() - 1) as int, f)),
{
    let d = define_top(fs, f.id, f);
    assert(d.last() == fs.last().insert(f.id, f));
}

// ---------------------------------------------------------------------------
// Block scoping of evaluation
//
// Function declarations are scoped by blocks and calls restore the scopes of their
// caller: evaluating an expression or a block leaves the function scopes exactly as
// they were, and the number of value scopes unchanged.

/// The function scopes are the same and there are as many value scopes.
pub open spec fn scopes_kept(m: Machine, m2: Machine) -> bool {
    m2.functions == m.functions && m2.values.len() == m.values.len()
}

/// Only the innermost function scope may differ; there are as many scopes of each kind.
pub open spec fn outer_scopes_kept(m: Machine, m2: Machine) -> bool {
    &&& m2.functions.len() == m.functions.len()
    &&& m2.functions.drop_last() == m.functions.drop_last()
    &&& m2.values.len() == m.values.len()
}

pub open spec fn nonempty(m: Machine) -> bool {
    m.values.len() >= 1 && m.functions.len() >= 1
}

proof fn lemma_assign_len(values: Seq<Map<Seq<char>, SpecVal>>, id: Seq<char>, v: SpecVal)
    ensures
        assign_in(values, id, v) matches Some(vs) ==> vs.len() == values.len(),
    decreases values.len(),
{
    if values.len() > 0 && !values.last().contains_key(id) {
        lemma_assign_len(values.drop_last(), id, v);
    }
}

/// Evaluating an expression keeps the scopes.
pub proof fn law_expr_keeps_scopes(fuel: nat, m: Machine, e: SpecExpr)
    requires
        nonempty(m),
    ensures
        eval_expr_spec(fuel, m, e) matches Ok((_, m2)) ==> scopes_kept(m, m2),
    decreases fuel, e, 2int,
{
    match e.node {
        crate::ast::SpecExprKind::BinOp(op, l, r) => {
            law_expr_keeps_scopes(fuel, m, *l);
            match eval_expr_spec(fuel, m, *l) {
                Ok((_, m1)) => law_expr_keeps_scopes(fuel, m1, *r),
                Err(_) => {},
            }
        },
        crate::ast::SpecExprKind::Par(inner) => law_expr_keeps_scopes(fuel, m, *inner),
        crate::ast::SpecExprKind::Call(name, args) => law_call_keeps_scopes(fuel, m, name, args),
        crate::ast::SpecExprKind::IfThenElse(c, t, el) => {
            law_expr_keeps_scopes(fuel, m, *c);
            match eval_expr_spec(fuel, m, *c) {
                Ok((_, m1)) => {
                    law_block_keeps_scopes(fuel, m1, t);
                    match el {
                        Some(b) => law_block_keeps_scopes(fuel, m1, b),
                        None => {},
                    }
                },
                Err(_) => {},
            }
        },
        crate::ast::SpecExprKind::Block(b) => law_block_keeps_scopes(fuel, m, b),
        crate::ast::SpecExprKind::UnOp(_, x) => law_expr_keeps_scopes(fuel, m, *x),
        _ => {},
    }
}

/// Evaluating arguments keeps the scopes.
pub proof fn law_args_keep_scopes(fuel: nat, m: Machine, args: Seq<SpecExpr>, i: int, acc: Seq<SpecVal>)
    requires
        nonempty(m),
    ensures
        eval_args_spec(fuel, m, args, i, acc) matches Ok((_, m2)) ==> scopes_kept(m, m2),
    decreases fuel, args, args.len() - i,
{
    if 0 <= i < args.len() {
        law_expr_keeps_scopes(fuel, m, args[i]);
        match eval_expr_spec(fuel, m, args[i]) {
            Ok((v, m1)) => law_args_keep_scopes(fuel, m1, args, i + 1, acc.push(v)),
            Err(_) => {},
        }
    }
}

/// A call keeps the scopes of its caller.
pub proof fn law_call_keeps_scopes(fuel: nat, m: Machine, name: Seq<char>, args: Seq<SpecExpr>)
    requires
        nonempty(m),
    ensures
        call_spec(fuel, m, name, args) matches Ok((_, m2)) ==> scopes_kept(m, m2),
    decreases fuel, args, args.len() + 1,
{
    law_args_keep_scopes(fuel, m, args, 0, seq![]);
    match eval_args_spec(fuel, m, args, 0, seq![]) {
        Ok((vals, m1)) => {
            if name != crate::vm::println_name() {
                lemma_lookup_fn_bound(m1.functions, name);
                match lookup_fn_in(m1.functions, name) {
                    Some((i, f)) => if f.params.len() == vals.len() && fuel > 0 {
                        let callee = Machine {
                            values: m1.values.push(crate::vm::bind_params(f.params, vals, vals.len() as int)),
                            functions: m1.functions.subrange(0, i + 1),
                            out: m1.out,
                        };
                        law_block_keeps_scopes((fuel - 1) as nat, callee, f.body);
                        match eval_block_spec((fuel - 1) as nat, callee, f.body) {
                            Ok((_, m2)) => {
                                assert(m2.functions + m1.functions.subrange(i + 1, m1.functions.len() as int)
                                    =~= m1.functions);
                            },
                            Err(_) => {},
                        }
                    },
                    None => {},
                }
            }
        },
        Err(_) => {},
    }
}

proof fn lemma_lookup_fn_bound(fs: Seq<Map<Seq<char>, SpecFnDecl>>, name: Seq<char>)
    ensures
        lookup_fn_in(fs, name) matches Some((i, _)) ==> 0 <= i < fs.len(),
    decreases fs.len(),
{
    if fs.len() > 0 && !fs.last().contains_key(name) {
        lemma_lookup_fn_bound(fs.drop_last(), name);
    }
}

/// Evaluating a block keeps the scopes: what it declares goes with it.
pub proof fn law_block_keeps_scopes(fuel: nat, m: Machine, b: SpecBlock)
    requires
        nonempty(m),
    ensures
        eval_block_spec(fuel, m, b) matches Ok((_, m2)) ==> scopes_kept(m, m2),
    decreases fuel, b, 1int,
{
    let m1 = Machine {
        values: m.values.push(Map::empty()),
        functions: m.functions.push(crate::vm::hoist(b.statements, b.statements.len() as int)),
        out: m.out,
    };
    law_stmts_keep_outer_scopes(fuel, m1, b.statements, 0, crate::vm::unit());
    match eval_stmts_spec(fuel, m1, b.statements, 0, crate::vm::unit()) {
        Ok((_, m2)) => {
            assert(m1.functions.drop_last() =~= m.functions);
            assert(pop_top(m2.functions) =~= m.functions);
        },
        Err(_) => {},
    }
}

/// Running statements changes at most the innermost function scope.
pub proof fn law_stmts_keep_outer_scopes(fuel: nat, m: Machine, ss: Seq<SpecStatement>, i: int, last: SpecVal)
    requires
        nonempty(m),
    ensures
        eval_stmts_spec(fuel, m, ss, i, last) matches Ok((_, m2)) ==> outer_scopes_kept(m, m2),
    decreases fuel, ss, ss.len() - i,
{
    if 0 <= i < ss.len() {
        law_stmt_keeps_outer_scopes(fuel, m, ss[i]);
        match eval_stmt_spec(fuel, m, ss[i]) {
            Ok((v, m1)) => law_stmts_keep_outer_scopes(fuel, m1, ss, i + 1, v),
            Err(_) => {},
        }
    }
}

/// Running a statement changes at most the innermost function scope.
pub proof fn law_stmt_keeps_outer_scopes(fuel: nat, m: Machine, s: SpecStatement)
    requires
        nonempty(m),
    ensures
        eval_stmt_spec(fuel, m, s) matches Ok((_, m2)) ==> outer_scopes_kept(m, m2),
    decreases fuel, s, 2int,
{
    match s.node {
        SpecStmtKind::Let(mutable, id, _, init) => {
            match init {
                Some(e) => law_expr_keeps_scopes(fuel, m, e),
                None => {},
            }
        },
        SpecStmtKind::Assign(lhs, rhs) => {
            law_expr_keeps_scopes(fuel, m, rhs);
            match eval_expr_spec(fuel, m, rhs) {
                Ok((v, m1)) => match lhs.node {
                    crate::ast::SpecExprKind::Ident(id) => lemma_assign_len(m1.values, id, v),
                    _ => {},
                },
                Err(_) => {},
            }
        },
        SpecStmtKind::While(_, _) => law_while_keeps_scopes(fuel, m, s),
        SpecStmtKind::Expr(e) => law_expr_keeps_scopes(fuel, m, e),
        SpecStmtKind::Fn(f) => {
            assert(define_top(m.functions, f.id, f).drop_last() =~= m.functions.drop_last());
        },
    }
}

/// A loop keeps the scopes.
pub proof fn law_while_keeps_scopes(fuel: nat, m: Machine, s: SpecStatement)
    requires
        nonempty(m),
    ensures
        eval_while_spec(fuel, m, s) matches Ok((_, m2)) ==> scopes_kept(m, m2),
    decreases fuel, s, 1int,
{
    match s.node {
        SpecStmtKind::While(c, body) => {
            law_expr_keeps_scopes(fuel, m, c);
            match eval_expr_spec(fuel, m, c) {
                Ok((cv, m1)) => {
                    if fuel > 0 {
                        law_block_keeps_scopes(fuel, m1, body);
                        match eval_block_spec(fuel, m1, body) {
                            Ok((_, m2)) => law_while_keeps_scopes((fuel - 1) as nat, m2, s),
                            Err(_) => {},
                        }
                    }
                },
                Err(_) => {},
            }
        },
        _ => {},
    }
}

// ---------------------------------------------------------------------------
// The budget of work
//
// The budget only cuts evaluation off: with a larger budget, every evaluation that
// did not run out gives the same result.

/// The evaluation did not stop for want of budget.
pub open spec fn reached<A>(r: Result<A, SpecVmError>) -> bool {
    !(r matches Err(SpecVmError::OutOfFuel))
}

pub proof fn law_expr_fuel(fuel: nat, more: nat, m: Machine, e: SpecExpr)
    requires
        fuel <= more,
    ensures
        reached(eval_expr_spec(fuel, m, e)) ==> eval_expr_spec(more, m, e) == eval_expr_spec(fuel, m, e),
    decreases fuel, e, 2int,
{
    match e.node {
        crate::ast::SpecExprKind::BinOp(op, l, r) => {
            law_expr_fuel(fuel, more, m, *l);
            match eval_expr_spec(fuel, m, *l) {
                Ok((_, m1)) => law_expr_fuel(fuel, more, m1, *r),
                Err(_) => {},
            }
        },
        crate::ast::SpecExprKind::Par(inner) => law_expr_fuel(fuel, more, m, *inner),
        crate::ast::SpecExprKind::Call(name, args) => law_call_fuel(fuel, more, m, name, args),
        crate::ast::SpecExprKind::IfThenElse(c, t, el) => {
            law_expr_fuel(fuel, more, m, *c);
            match eval_expr_spec(fuel, m, *c) {
                Ok((_, m1)) => {
                    law_block_fuel(fuel, more, m1, t);
                    match el {
                        Some(b) => law_block_fuel(fuel, more, m1, b),
                        None => {},
                    }
                },
                Err(_) => {},
            }
        },
        crate::ast::SpecExprKind::Block(b) => law_block_fuel(fuel, more, m, b),
        crate::ast::SpecExprKind::UnOp(_, x) => law_expr_fuel(fuel, more, m, *x),
        _ => {},
    }
}

pub proof fn law_args_fuel(fuel: nat, more: nat, m: Machine, args: Seq<SpecExpr>, i: int, acc: Seq<SpecVal>)
    requires
        fuel <= more,
    ensures
        reached(eval_args_spec(fuel, m, args, i, acc)) ==> eval_args_spec(more, m, args, i, acc) == eval_args_spec(
            fuel,
            m,
            args,
            i,
            acc,
        ),
    decreases fuel, args, args.len() - i,
{
    if 0 <= i < args.len() {
        law_expr_fuel(fuel, more, m, args[i]);
        match eval_expr_spec(fuel, m, args[i]) {
            Ok((v, m1)) => law_args_fuel(fuel, more, m1, args, i + 1, acc.push(v)),
            Err(_) => {},
        }
    }
}

pub proof fn law_call_fuel(fuel: nat, more: nat, m: Machine, name: Seq<char>, args: Seq<SpecExpr>)
    requires
        fuel <= more,
    ensures
        reached(call_spec(fuel, m, name, args)) ==> call_spec(more, m, name, args) == call_spec(fuel, m, name, args),
    decreases fuel, args, args.len() + 1,
{
    law_args_fuel(fuel, more, m, args, 0, seq![]);
    match eval_args_spec(fuel, m, args, 0, seq![]) {
        Ok((vals, m1)) => {
            if name != crate::vm::println_name() {
                match lookup_fn_in(m1.functions, name) {
                    Some((i, f)) => if f.params.len() == vals.len() && fuel > 0 {
                        let callee = Machine {
                            values: m1.values.push(crate::vm::bind_params(f.params, vals, vals.len() as int)),
                            functions: m1.functions.subrange(0, i + 1),
                            out: m1.out,
                        };
                        law_block_fuel((fuel - 1) as nat, (more - 1) as nat, callee, f.body);
                    },
                    None => {},
                }
            }
        },
        Err(_) => {},
    }
}

pub proof fn law_block_fuel(fuel: nat, more: nat, m: Machine, b: SpecBlock)
    requires
        fuel <= more,
    ensures
        reached(eval_block_spec(fuel, m, b)) ==> eval_block_spec(more, m, b) == eval_block_spec(fuel, m, b),
    decreases fuel, b, 1int,
{
    let m1 = Machine {
        values: m.values.push(Map::empty()),
        functions: m.functions.push(crate::vm::hoist(b.statements, b.statements.len() as int)),
        out: m.out,
    };
    law_stmts_fuel(fuel, more, m1, b.statements, 0, crate::vm::unit());
}

pub proof fn law_stmts_fuel(fuel: nat, more: nat, m: Machine, ss: Seq<SpecStatement>, i: int, last: SpecVal)
    requires
        fuel <= more,
    ensures
        reached(eval_stmts_spec(fuel, m, ss, i, last)) ==> eval_stmts_spec(more, m, ss, i, last) == eval_stmts_spec(
            fuel,
            m,
            ss,
            i,
            last,
        ),
    decreases fuel, ss, ss.len() - i,
{
    if 0 <= i < ss.len() {
        law_stmt_fuel(fuel, more, m, ss[i]);
        match eval_stmt_spec(fuel, m, ss[i]) {
            Ok((v, m1)) => law_stmts_fuel(fuel, more, m1, ss, i + 1, v),
            Err(_) => {},
        }
    }
}

pub proof fn law_stmt_fuel(fuel: nat, more: nat, m: Machine, s: SpecStatement)
    requires
        fuel <= more,
    ensures
        reached(eval_stmt_spec(fuel, m, s)) ==> eval_stmt_spec(more, m, s) == eval_stmt_spec(fuel, m, s),
    decreases fuel, s, 2int,
{
    match s.node {
        SpecStmtKind::Let(_, _, _, init) => match init {
            Some(e) => law_expr_fuel(fuel, more, m, e),
            None => {},
        },
        SpecStmtKind::Assign(_, rhs) => law_expr_fuel(fuel, more, m, rhs),
        SpecStmtKind::While(_, _) => law_while_fuel(fuel, more, m, s),
        SpecStmtKind::Expr(e) => law_expr_fuel(fuel, more, m, e),
        SpecStmtKind::Fn(_) => {},
    }
}

pub proof fn law_while_fuel(fuel: nat, more: nat, m: Machine, s: SpecStatement)
    requires
        fuel <= more,
    ensures
        reached(eval_while_spec(fuel, m, s)) ==> eval_while_spec(more, m, s) == eval_while_spec(fuel, m, s),
    decreases fuel, s, 1int,
{
    match s.node {
        SpecStmtKind::While(c, body) => {
            law_expr_fuel(fuel, more, m, c);
            match eval_expr_spec(fuel, m, c) {
                Ok((_, m1)) => {
                    if fuel > 0 {
                        law_block_fuel(fuel, more, m1, body);
                        match eval_block_spec(fuel, m1, body) {
                            Ok((_, m2)) => law_while_fuel((fuel - 1) as nat, (more - 1) as nat, m2, s),
                            Err(_) => {},
                        }
                    }
                },
                Err(_) => {},
            }
        },
        _ => {},
    }
}

// ---------------------------------------------------------------------------
// Rules of the operational semantics

/// [E-Lit] A literal evaluates to itself and changes nothing.
pub proof fn law_literal(fuel: nat, m: Machine, l: crate::ast::SpecLiteral, span: crate::error::ErrRange)
    ensures
        eval_expr_spec(fuel, m, SpecExpr { node: crate::ast::SpecExprKind::Lit(l), span }) == Ok::<
            (SpecVal, Machine),
            SpecVmError,
        >((SpecVal::Lit(l), m)),
{
}

/// [E-Par] Parentheses evaluate to what they enclose.
pub proof fn law_parentheses(fuel: nat, m: Machine, e: SpecExpr, span: crate::error::ErrRange)
    ensures
        eval_expr_spec(fuel, m, SpecExpr { node: crate::ast::SpecExprKind::Par(Box::new(e)), span }) == eval_expr_spec(
            fuel,
            m,
            e,
        ),
{
}

/// [E-Var] A name evaluates to the value of its innermost binding, seen through `mut`,
/// and changes nothing; an unbound name is an error.
pub proof fn law_ident(fuel: nat, m: Machine, id: Seq<char>, span: crate::error::ErrRange)
    ensures
        eval_expr_spec(fuel, m, SpecExpr { node: SpecExprKind::Ident(id), span }) == match lookup_value_in(m.values, id) {
            Some(v) => Ok::<(SpecVal, Machine), SpecVmError>((v, m)),
            None => Err(SpecVmError::NoValFound(id)),
        },
{
}

/// [E-Neg], [E-Not] A unary operator applies to the value of its operand: `-n` for an
/// integer `n` (but for the least `i32`, which overflows), `!b` for a boolean `b`.
pub proof fn law_unary(fuel: nat, m: Machine, op: crate::ast::UnOp, x: SpecExpr, span: crate::error::ErrRange)
    ensures
        eval_expr_spec(fuel, m, SpecExpr { node: SpecExprKind::UnOp(op, Box::new(x)), span }) == match eval_expr_spec(
            fuel,
            m,
            x,
        ) {
            Err(e) => Err(e),
            Ok((v, m1)) => match crate::vm::un_op_spec(op, v) {
                Ok(r) => Ok::<(SpecVal, Machine), SpecVmError>((r, m1)),
                Err(e) => Err(e),
            },
        },
        forall|n: i32| n != i32::MIN ==> crate::vm::un_op_spec(crate::ast::UnOp::Neg, SpecVal::Lit(crate::ast::SpecLiteral::Int(n)))
            == Ok::<SpecVal, SpecVmError>(SpecVal::Lit(crate::ast::SpecLiteral::Int((-n) as i32))),
        forall|b: bool| crate::vm::un_op_spec(crate::ast::UnOp::Bang, SpecVal::Lit(crate::ast::SpecLiteral::Bool(b)))
            == Ok::<SpecVal, SpecVmError>(SpecVal::Lit(crate::ast::SpecLiteral::Bool(!b))),
{
}

/// [E-BinOp] A binary operator evaluates its left operand, then its right one in the
/// machine the left one left, then applies to the two values.
pub proof fn law_binary(fuel: nat, m: Machine, op: crate::ast::BinOp, l: SpecExpr, r: SpecExpr, span: crate::error::ErrRange)
    ensures
        eval_expr_spec(fuel, m, SpecExpr { node: SpecExprKind::BinOp(op, Box::new(l), Box::new(r)), span }) == match eval_expr_spec(
            fuel,
            m,
            l,
        ) {
            Err(e) => Err(e),
            Ok((lv, m1)) => match eval_expr_spec(fuel, m1, r) {
                Err(e) => Err(e),
                Ok((rv, m2)) => match crate::vm::bin_op_spec(op, lv, rv) {
                    Ok(v) => Ok::<(SpecVal, Machine), SpecVmError>((v, m2)),
                    Err(e) => Err(e),
                },
            },
        },
{
}

/// [E-If-True], [E-If-False] A true condition runs the first block; a false one the
/// `else` block, or nothing, giving unit, where there is none.
pub proof fn law_if(
    fuel: nat,
    m: Machine,
    c: SpecExpr,
    t: SpecBlock,
    el: Option<SpecBlock>,
    span: crate::error::ErrRange,
)
    ensures
        eval_expr_spec(fuel, m, c) matches Ok((SpecVal::Lit(crate::ast::SpecLiteral::Bool(b)), m1)) ==> eval_expr_spec(
            fuel,
            m,
            SpecExpr { node: SpecExprKind::IfThenElse(Box::new(c), t, el), span },
        ) == if b {
            eval_block_spec(fuel, m1, t)
        } else {
            match el {
                Some(eb) => eval_block_spec(fuel, m1, eb),
                None => Ok::<(SpecVal, Machine), SpecVmError>((crate::vm::unit(), m1)),
            }
        },
{
}

/// [E-Block] A block runs its statements in a new scope that knows the block's
/// functions from the start. Its value is that of its last statement, or unit where
/// it is empty or ends with `;`. Afterwards the block's own scopes are gone, with
/// what it bound in them, and the outer scopes are as its statements left them: an
/// assignment to an outer variable persists.
pub proof fn law_block(fuel: nat, m: Machine, b: SpecBlock)
    requires
        nonempty(m),
    ensures
        eval_block_spec(fuel, m, b) == match eval_stmts_spec(
            fuel,
            Machine {
                values: m.values.push(Map::empty()),
                functions: m.functions.push(crate::vm::hoist(b.statements, b.statements.len() as int)),
                out: m.out,
            },
            b.statements,
            0,
            crate::vm::unit(),
        ) {
            Err(e) => Err(e),
            Ok((v, m3)) => Ok::<(SpecVal, Machine), SpecVmError>((
                if b.semi || b.statements.len() == 0 { crate::vm::unit() } else { v },
                Machine { values: m3.values.drop_last(), functions: m3.functions.drop_last(), out: m3.out },
            )),
        },
{
    let m1 = Machine {
        values: m.values.push(Map::empty()),
        functions: m.functions.push(crate::vm::hoist(b.statements, b.statements.len() as int)),
        out: m.out,
    };
    law_stmts_keep_outer_scopes(fuel, m1, b.statements, 0, crate::vm::unit());
}

/// An assignment to a name that the innermost scope does not bind changes only the
/// outer scopes: it survives the end of the innermost block.
pub proof fn law_assign_outer_persists(values: Seq<Map<Seq<char>, SpecVal>>, x: Seq<char>, v: SpecVal)
    requires
        values.len() >= 1,
        !values.last().contains_key(x),
    ensures
        assign_in(values, x, v) matches Some(vs) ==> vs.last() == values.last()
            && assign_in(values.drop_last(), x, v) == Some(vs.drop_last()),
{
    match assign_in(values.drop_last(), x, v) {
        Some(vs0) => {
            assert(vs0.push(values.last()).drop_last() =~= vs0);
        },
        None => {},
    }
}

/// [S-Expr] An expression statement evaluates as the expression.
pub proof fn law_expr_statement(fuel: nat, m: Machine, e: SpecExpr, span: crate::error::ErrRange)
    ensures
        eval_stmt_spec(fuel, m, SpecStatement { node: SpecStmtKind::Expr(e), span }) == eval_expr_spec(fuel, m, e),
{
}

/// [S-Fn] A function declaration gives unit and makes the function known in the
/// innermost function scope.
pub proof fn law_fn_statement(fuel: nat, m: Machine, f: SpecFnDecl, span: crate::error::ErrRange)
    requires
        m.functions.len() >= 1,
    ensures
        eval_stmt_spec(fuel, m, SpecStatement { node: SpecStmtKind::Fn(f), span }) matches Ok((v, m2))
            && v == crate::vm::unit()
            && lookup_fn_in(m2.functions, f.id) == Some(((m.functions.len() - 1) as int, f))
            && m2.values == m.values,
{
    let fs = define_top(m.functions, f.id, f);
    assert(fs.last() == m.functions.last().insert(f.id, f));
}

/// [E-Call] A call of a declared function, once its arguments have evaluated left to
/// right to as many values as it has parameters, runs the function's body in a new
/// value scope that binds each parameter to its value (held as mutable where the
/// parameter is `mut`), seeing the functions declared up to the callee's own scope.
/// The call gives the body's value, or its error; afterwards that parameter scope is
/// gone and the caller has as many value scopes, and the same function scopes, as
/// before the call.
pub proof fn law_user_call(fuel: nat, m: Machine, name: Seq<char>, args: Seq<SpecExpr>)
    requires
        nonempty(m),
        fuel > 0,
        name != crate::vm::println_name(),
    ensures
        match eval_args_spec(fuel, m, args, 0, seq![]) {
            Err(e) => call_spec(fuel, m, name, args) == Err::<(SpecVal, Machine), SpecVmError>(e),
            Ok((vals, m1)) => match lookup_fn_in(m1.functions, name) {
                None => call_spec(fuel, m, name, args) == Err::<(SpecVal, Machine), SpecVmError>(
                    SpecVmError::NoFunctionFound(name),
                ),
                Some((i, f)) => f.params.len() == vals.len() ==> {
                    let callee = Machine {
                        values: m1.values.push(crate::vm::bind_params(f.params, vals, vals.len() as int)),
                        functions: m1.functions.subrange(0, i + 1),
                        out: m1.out,
                    };
                    match eval_block_spec((fuel - 1) as nat, callee, f.body) {
                        Err(e) => call_spec(fuel, m, name, args) == Err::<(SpecVal, Machine), SpecVmError>(e),
                        Ok((v, m2)) => call_spec(fuel, m, name, args) matches Ok((r, m3))
                            && r == v
                            && m3.values == m2.values.drop_last()
                            && m3.out == m2.out
                            && m3.values.len() == m.values.len()
                            && m3.functions == m.functions,
                    }
                },
            },
        },
{
    law_call_keeps_scopes(fuel, m, name, args);
}

/// [E-Block-Semi] A block that ends with `;` evaluates to unit.
pub proof fn law_block_semi_is_unit(fuel: nat, m: Machine, b: SpecBlock)
    requires
        b.semi,
    ensures
        eval_block_spec(fuel, m, b) matches Ok((v, _)) ==> v == crate::vm::unit(),
{
}

/// [E-Call-Println] Once its arguments evaluate, `println!` prints the line they make
/// and gives unit; where an argument fails, the call fails with its error.
pub proof fn law_println_is_unit(fuel: nat, m: Machine, args: Seq<SpecExpr>)
    ensures
        match eval_args_spec(fuel, m, args, 0, seq![]) {
            Ok((vals, m0)) => call_spec(fuel, m, crate::vm::println_name(), args) == Ok::<(SpecVal, Machine), SpecVmError>((
                crate::vm::unit(),
                Machine { values: m0.values, functions: m0.functions, out: m0.out + crate::intrinsics::println_spec(vals) },
            )),
            Err(e) => call_spec(fuel, m, crate::vm::println_name(), args) == Err::<(SpecVal, Machine), SpecVmError>(e),
        },
{
}

/// [S-While] A loop that ends gives unit.
pub proof fn law_while_is_unit(fuel: nat, m: Machine, s: SpecStatement)
    ensures
        eval_while_spec(fuel, m, s) matches Ok((v, _)) ==> v == crate::vm::unit(),
    decreases fuel,
{
    match s.node {
        SpecStmtKind::While(c, body) => {
            match eval_expr_spec(fuel, m, c) {
                Ok((_, m1)) => if fuel > 0 {
                    match eval_block_spec(fuel, m1, body) {
                        Ok((_, m2)) => law_while_is_unit((fuel - 1) as nat, m2, s),
                        Err(_) => {},
                    }
                },
                Err(_) => {},
            }
        },
        _ => {},
    }
}

/// [S-Let], [S-Assign], [S-Fn] Bindings, assignments and declarations give unit.
pub proof fn law_statements_are_unit(fuel: nat, m: Machine, s: SpecStatement)
    requires
        s.node is Let || s.node is Assign || s.node is Fn,
    ensures
        eval_stmt_spec(fuel, m, s) matches Ok((v, _)) ==> v == crate::vm::unit(),
{
}

/// [P-Prog] A program without `main` is refused.
pub proof fn law_program_needs_main(fuel: nat, m: Machine, fs: Seq<SpecFnDecl>)
    requires
        m.functions.len() >= 1,
        forall|i: int| 0 <= i < fs.len() ==> fs[i].id != crate::vm::main_name(),
        forall|i: int| 0 <= i < m.functions.len() ==> !(#[trigger] m.functions[i]).contains_key(crate::vm::main_name()),
    ensures
        crate::vm::eval_prog_spec(fuel, m, fs) == Err::<(SpecVal, Machine), SpecVmError>(SpecVmError::NoMainFound),
{
    let top = m.functions.len() - 1;
    let scope = crate::vm::insert_fns(m.functions.last(), fs, fs.len() as int);
    lemma_insert_fns_keeps_out(m.functions.last(), fs, fs.len() as int, crate::vm::main_name());
    let fs1 = m.functions.update(top, scope);
    lemma_lookup_fn_absent(fs1, crate::vm::main_name());
}

proof fn lemma_insert_fns_keeps_out(scope: Map<Seq<char>, SpecFnDecl>, fs: Seq<SpecFnDecl>, k: int, name: Seq<char>)
    requires
        !scope.contains_key(name),
        forall|i: int| 0 <= i < fs.len() ==> fs[i].id != name,
        k <= fs.len(),
    ensures
        !crate::vm::insert_fns(scope, fs, k).contains_key(name),
    decreases k,
{
    if k > 0 {
        lemma_insert_fns_keeps_out(scope, fs, k - 1, name);
    }
}

proof fn lemma_lookup_fn_absent(fs: Seq<Map<Seq<char>, SpecFnDecl>>, name: Seq<char>)
    requires
        forall|i: int| 0 <= i < fs.len() ==> !(#[trigger] fs[i]).contains_key(name),
    ensures
        lookup_fn_in(fs, name) is None,
    decreases fs.len(),
{
    if fs.len() > 0 {
        assert(!fs[fs.len() - 1].contains_key(name));
        let pre = fs.drop_last();
        assert forall|i: int| 0 <= i < pre.len() implies !(#[trigger] pre[i]).contains_key(name) by {
            assert(pre[i] == fs[i]);
        }
        lemma_lookup_fn_absent(pre, name);
    }
}

// ---------------------------------------------------------------------------
// The type checker keeps every error it reports
//
// Checking only ever adds errors: what was reported before stays, in its place.

/// The errors of `st` are the first errors of `st2`.
pub open spec fn errors_kept(st: TcState, st2: TcState) -> bool {
    st.errors.len() <= st2.errors.len() && st2.errors.subrange(0, st.errors.len() as int) == st.errors
}

proof fn lemma_kept_trans(a: TcState, b: TcState, c: TcState)
    requires
        errors_kept(a, b),
        errors_kept(b, c),
    ensures
        errors_kept(a, c),
{
    assert(c.errors.subrange(0, a.errors.len() as int) =~= c.errors.subrange(0, b.errors.len() as int).subrange(
        0,
        a.errors.len() as int,
    ));
}

proof fn lemma_kept_refl(a: TcState)
    ensures
        errors_kept(a, a),
{
    assert(a.errors.subrange(0, a.errors.len() as int) =~= a.errors);
}

proof fn lemma_kept_unify(st: TcState, span: crate::error::ErrRange, got: crate::type_check::Ty, expected: crate::type_check::Ty)
    ensures
        errors_kept(st, try_unify_spec(st, span, got, expected).1),
{
    lemma_kept_refl(st);
    let r = try_unify_spec(st, span, got, expected).1;
    assert(r.errors.subrange(0, st.errors.len() as int) =~= st.errors);
}

proof fn lemma_kept_report(st: TcState, e: crate::type_check::SpecTypeError)
    ensures
        errors_kept(st, report_spec(st, e).1),
{
    assert(report_spec(st, e).1.errors.subrange(0, st.errors.len() as int) =~= st.errors);
}

pub proof fn law_expr_keeps_errors(st: TcState, e: SpecExpr)
    ensures
        errors_kept(st, tc_expr(st, e).1),
    decreases e, 1int,
{
    lemma_kept_refl(st);
    match e.node {
        crate::ast::SpecExprKind::Ident(l) => {
            lemma_kept_report(st, crate::type_check::SpecTypeError::UnknownVariable { name: l, span: e.span });
        },
        crate::ast::SpecExprKind::BinOp(op, l, r) => {
            let a = tc_expr(st, *l);
            let b = tc_expr(a.1, *r);
            law_expr_keeps_errors(st, *l);
            law_expr_keeps_errors(a.1, *r);
            lemma_kept_trans(st, a.1, b.1);
            let i32t = crate::type_check::Ty::spec_of(crate::ast::Type::I32);
            let c = try_unify_spec(b.1, e.span, a.0, i32t);
            let d = try_unify_spec(c.1, e.span, b.0, i32t);
            lemma_kept_unify(b.1, e.span, a.0, i32t);
            lemma_kept_unify(c.1, e.span, b.0, i32t);
            lemma_kept_trans(st, b.1, c.1);
            lemma_kept_trans(st, c.1, d.1);
            let c2 = try_unify_spec(b.1, e.span, a.0, b.0);
            let et = crate::type_check::Ty::spec_of(op.spec_expected_type());
            lemma_kept_unify(b.1, e.span, a.0, b.0);
            lemma_kept_unify(c2.1, e.span, c2.0, et);
            lemma_kept_trans(st, b.1, c2.1);
            lemma_kept_trans(st, c2.1, try_unify_spec(c2.1, e.span, c2.0, et).1);
        },
        crate::ast::SpecExprKind::Par(inner) => law_expr_keeps_errors(st, *inner),
        crate::ast::SpecExprKind::Call(id, args) => law_call_keeps_errors(st, e.span, id, args),
        crate::ast::SpecExprKind::IfThenElse(c, t, opt) => {
            let a = tc_expr(st, *c);
            law_expr_keeps_errors(st, *c);
            let bool_t = crate::type_check::Ty::spec_of(crate::ast::Type::Bool);
            let b = try_unify_spec(a.1, e.span, a.0, bool_t);
            lemma_kept_unify(a.1, e.span, a.0, bool_t);
            lemma_kept_trans(st, a.1, b.1);
            match opt {
                Some(eb) => {
                    let x = tc_block(b.1, eb);
                    let y = tc_block(x.1, t);
                    law_block_keeps_errors(b.1, eb);
                    law_block_keeps_errors(x.1, t);
                    lemma_kept_trans(st, b.1, x.1);
                    lemma_kept_trans(st, x.1, y.1);
                    lemma_kept_unify(y.1, e.span, y.0, x.0);
                    lemma_kept_trans(st, y.1, try_unify_spec(y.1, e.span, y.0, x.0).1);
                },
                None => {
                    law_block_keeps_errors(b.1, t);
                    lemma_kept_trans(st, b.1, tc_block(b.1, t).1);
                },
            }
        },
        crate::ast::SpecExprKind::Block(b) => law_block_keeps_errors(st, b),
        crate::ast::SpecExprKind::UnOp(op, x) => {
            let a = tc_expr(st, *x);
            law_expr_keeps_errors(st, *x);
            let et = crate::type_check::Ty::spec_of(op.spec_expected_type());
            lemma_kept_unify(a.1, x.span, a.0, et);
            lemma_kept_trans(st, a.1, try_unify_spec(a.1, x.span, a.0, et).1);
        },
        _ => {},
    }
}

pub proof fn law_call_keeps_errors(st: TcState, span: crate::error::ErrRange, id: Seq<char>, args: Seq<SpecExpr>)
    ensures
        errors_kept(st, tc_call(st, span, id, args).1),
    decreases args, args.len() + 1,
{
    lemma_kept_refl(st);
    if id == crate::vm::println_name() {
        let string_t = crate::type_check::Ty::spec_of(crate::ast::Type::String);
        let unit_t = crate::type_check::Ty::spec_of(crate::ast::Type::Unit);
        if args.len() == 0 {
            lemma_kept_report(st, crate::type_check::SpecTypeError::TypeMismatch { expected: string_t, got: unit_t, span });
        } else {
            let a = tc_expr(st, args[0]);
            law_expr_keeps_errors(st, args[0]);
            let b = try_unify_spec(a.1, span, a.0, string_t);
            lemma_kept_unify(a.1, span, a.0, string_t);
            lemma_kept_trans(st, a.1, b.1);
            law_println_rest_keeps_errors(b.1, args, 1);
            lemma_kept_trans(st, b.1, tc_println_rest(b.1, args, 1));
        }
    } else {
        match crate::env::lookup_function_in(st.scopes.functions, id) {
            None => lemma_kept_report(st, crate::type_check::SpecTypeError::UnknownFunction { name: id, span }),
            Some(f) => if f.params.len() != args.len() {
                lemma_kept_report(st, crate::type_check::SpecTypeError::ParameterArityMismatch {
                    id: f.id,
                    expected: f.params.len() as usize,
                    got: args.len() as usize,
                    call_span: span,
                    fn_span: f.span,
                });
            } else {
                law_call_args_keep_errors(st, f.params, args, span, 0);
            },
        }
    }
}

pub proof fn law_println_rest_keeps_errors(st: TcState, args: Seq<SpecExpr>, i: int)
    ensures
        errors_kept(st, tc_println_rest(st, args, i)),
    decreases args, args.len() - i,
{
    lemma_kept_refl(st);
    if 0 <= i < args.len() {
        let a = tc_expr(st, args[i]);
        law_expr_keeps_errors(st, args[i]);
        let i32t = crate::type_check::Ty::spec_of(crate::ast::Type::I32);
        let b = try_unify_spec(a.1, args[i].span, a.0, i32t);
        lemma_kept_unify(a.1, args[i].span, a.0, i32t);
        lemma_kept_trans(st, a.1, b.1);
        law_println_rest_keeps_errors(b.1, args, i + 1);
        lemma_kept_trans(st, b.1, tc_println_rest(b.1, args, i + 1));
    }
}

pub proof fn law_call_args_keep_errors(
    st: TcState,
    ps: Seq<crate::ast::SpecParam>,
    args: Seq<SpecExpr>,
    span: crate::error::ErrRange,
    i: int,
)
    ensures
        errors_kept(st, tc_call_args(st, ps, args, span, i).1),
    decreases args, args.len() - i,
{
    lemma_kept_refl(st);
    if 0 <= i < args.len() && i < ps.len() {
        match crate::env::lookup_binding_in(st.scopes.bindings, ps[i].id) {
            None => lemma_kept_report(st, crate::type_check::SpecTypeError::UnknownVariable { name: ps[i].id, span }),
            Some(b) => {
                let a = tc_expr(st, args[i]);
                law_expr_keeps_errors(st, args[i]);
                let c = try_unify_spec(a.1, args[i].span, b.ty, a.0);
                lemma_kept_unify(a.1, args[i].span, b.ty, a.0);
                lemma_kept_trans(st, a.1, c.1);
                law_call_args_keep_errors(c.1, ps, args, span, i + 1);
                lemma_kept_trans(st, c.1, tc_call_args(c.1, ps, args, span, i + 1).1);
            },
        }
    }
}

pub proof fn law_block_keeps_errors(st: TcState, b: SpecBlock)
    ensures
        errors_kept(st, tc_block(st, b).1),
    decreases b, 1int,
{
    let st1 = TcState {
        scopes: crate::env::TypeScopes {
            bindings: st.scopes.bindings.push(Map::empty()),
            functions: crate::type_check::hoist_into(st.scopes.functions.push(Map::empty()), b.statements, b.statements.len() as int),
        },
        errors: st.errors,
    };
    lemma_kept_refl(st);
    law_stmts_keep_errors(st1, b.statements, 0, crate::type_check::Ty::spec_of(crate::ast::Type::Unit));
}

pub proof fn law_stmts_keep_errors(st: TcState, ss: Seq<SpecStatement>, i: int, last: crate::type_check::Ty)
    ensures
        errors_kept(st, tc_stmts(st, ss, i, last).1),
    decreases ss, ss.len() - i,
{
    lemma_kept_refl(st);
    if 0 <= i < ss.len() {
        let a = tc_stmt(st, ss[i]);
        law_stmt_keeps_errors(st, ss[i]);
        law_stmts_keep_errors(a.1, ss, i + 1, a.0);
        lemma_kept_trans(st, a.1, tc_stmts(a.1, ss, i + 1, a.0).1);
    }
}

proof fn lemma_define_params_errors(st: TcState, ps: Seq<crate::ast::SpecParam>, k: int)
    ensures
        crate::type_check::define_params(st, ps, k).errors == st.errors,
    decreases k,
{
    if k > 0 {
        lemma_define_params_errors(st, ps, k - 1);
    }
}

pub proof fn law_stmt_keeps_errors(st: TcState, s: SpecStatement)
    ensures
        errors_kept(st, tc_stmt(st, s).1),
    decreases s, 1int,
{
    lemma_kept_refl(st);
    match s.node {
        SpecStmtKind::Let(_, id, ty, init) => match ty {
            None => match init {
                None => lemma_kept_report(st, crate::type_check::SpecTypeError::Uninitialized { name: id, span: s.span }),
                Some(e) => law_expr_keeps_errors(st, e),
            },
            Some(t) => match init {
                None => {},
                Some(e) => {
                    let declared = crate::type_check::Ty { ty: Some(t.node), span: t.span };
                    let a = tc_expr(st, e);
                    law_expr_keeps_errors(st, e);
                    lemma_kept_unify(a.1, e.span, a.0, declared);
                    lemma_kept_trans(st, a.1, try_unify_spec(a.1, e.span, a.0, declared).1);
                },
            },
        },
        SpecStmtKind::Assign(lhs, rhs) => match lhs.node {
            crate::ast::SpecExprKind::Ident(id) => match crate::env::lookup_binding_in(st.scopes.bindings, id) {
                None => lemma_kept_report(st, crate::type_check::SpecTypeError::UnknownVariable { name: id, span: lhs.span }),
                Some(at) => {
                    let a = tc_expr(st, rhs);
                    law_expr_keeps_errors(st, rhs);
                    let b = try_unify_spec(a.1, rhs.span, at.ty, a.0);
                    lemma_kept_unify(a.1, rhs.span, at.ty, a.0);
                    lemma_kept_trans(st, a.1, b.1);
                    let e = crate::type_check::SpecTypeError::Assignment {
                        kind: crate::type_check::AssignmentErrorKind::NotMutable,
                        span: lhs.span,
                        decl_span: at.decl_span,
                    };
                    lemma_kept_report(b.1, e);
                    lemma_kept_trans(st, b.1, report_spec(b.1, e).1);
                },
            },
            _ => lemma_kept_report(st, crate::type_check::SpecTypeError::Assignment {
                kind: crate::type_check::AssignmentErrorKind::NotIdent,
                span: lhs.span,
                decl_span: lhs.span,
            }),
        },
        SpecStmtKind::While(c, b) => {
            let a = tc_expr(st, c);
            law_expr_keeps_errors(st, c);
            let bool_t = crate::type_check::Ty::spec_of(crate::ast::Type::Bool);
            let x = try_unify_spec(a.1, c.span, a.0, bool_t);
            lemma_kept_unify(a.1, c.span, a.0, bool_t);
            lemma_kept_trans(st, a.1, x.1);
            law_block_keeps_errors(x.1, b);
            lemma_kept_trans(st, x.1, tc_block(x.1, b).1);
        },
        SpecStmtKind::Expr(e) => law_expr_keeps_errors(st, e),
        SpecStmtKind::Fn(f) => lemma_define_params_errors(st, f.params, f.params.len() as int),
    }
}


// ---------------------------------------------------------------------------
// Typing rules of the checker

/// Whether a binary operator takes operands of these types: integers for arithmetic
/// and comparisons, booleans for `&&` and `||`.
pub open spec fn operands_fit(op: crate::ast::BinOp, l: crate::ast::Type, r: crate::ast::Type) -> bool {
    match op {
        crate::ast::BinOp::And | crate::ast::BinOp::Or => l == crate::ast::Type::Bool && r == crate::ast::Type::Bool,
        _ => l == crate::ast::Type::I32 && r == crate::ast::Type::I32,
    }
}

/// The type of a binary operation on operands that fit: booleans for comparisons and
/// `&&`, `||`; integers for arithmetic.
pub open spec fn binop_type(op: crate::ast::BinOp) -> crate::ast::Type {
    match op {
        crate::ast::BinOp::Add | crate::ast::BinOp::Sub | crate::ast::BinOp::Mul | crate::ast::BinOp::Div => crate::ast::Type::I32,
        _ => crate::ast::Type::Bool,
    }
}

/// [T-BinOp] With both operands of known type, a binary operation adds no error
/// exactly when its operands fit the operator; its type is then the operator's type,
/// and otherwise the error type.
pub proof fn law_tc_binop(st: TcState, op: crate::ast::BinOp, l: SpecExpr, r: SpecExpr, span: crate::error::ErrRange)
    ensures
        ({
            let a = tc_expr(st, l);
            let b = tc_expr(a.1, r);
            let res = tc_expr(st, SpecExpr { node: SpecExprKind::BinOp(op, Box::new(l), Box::new(r)), span });
            a.0.ty is Some && b.0.ty is Some ==> {
                &&& res.1.scopes == b.1.scopes
                &&& (res.1.errors == b.1.errors <==> operands_fit(op, a.0.ty.unwrap(), b.0.ty.unwrap()))
                &&& (operands_fit(op, a.0.ty.unwrap(), b.0.ty.unwrap()) ==> res.0.ty == Some(binop_type(op)))
                &&& (!operands_fit(op, a.0.ty.unwrap(), b.0.ty.unwrap()) ==> res.0.ty is None
                    && res.1.errors.len() > b.1.errors.len())
            }
        }),
{
    let e = SpecExpr { node: SpecExprKind::BinOp(op, Box::new(l), Box::new(r)), span };
    let a = tc_expr(st, l);
    let b = tc_expr(a.1, r);
    let res = tc_expr(st, e);
    let i32t = crate::type_check::Ty::spec_of(crate::ast::Type::I32);
    if a.0.ty is Some && b.0.ty is Some {
        if op == crate::ast::BinOp::Eq || op == crate::ast::BinOp::Lt || op == crate::ast::BinOp::Gt {
            let c = try_unify_spec(b.1, span, a.0, i32t);
            let d = try_unify_spec(c.1, span, b.0, i32t);
            assert(res == (if c.0.ty is None || d.0.ty is None { crate::type_check::Ty::spec_error() } else {
                crate::type_check::Ty::spec_of(crate::ast::Type::Bool)
            }, d.1));
            assert(c.1.errors.len() == b.1.errors.len() + (if a.0.ty == Some(crate::ast::Type::I32) { 0int } else { 1int }));
            assert(d.1.errors.len() == c.1.errors.len() + (if b.0.ty == Some(crate::ast::Type::I32) { 0int } else { 1int }));
        } else {
            let et = crate::type_check::Ty::spec_of(op.spec_expected_type());
            let c = try_unify_spec(b.1, span, a.0, b.0);
            let d = try_unify_spec(c.1, span, c.0, et);
            assert(res == d);
            assert(c.1.errors.len() == b.1.errors.len() + (if a.0.ty == b.0.ty { 0int } else { 1int }));
            if a.0.ty == b.0.ty {
                assert(c.0 == b.0);
                assert(d.1.errors.len() == c.1.errors.len() + (if b.0.ty == et.ty { 0int } else { 1int }));
            } else {
                assert(c.0.ty is None);
                assert(d.1 == c.1);
            }
        }
    }
}

/// [T-Neg], [T-Not] With its operand of known type, a unary operation adds no error
/// exactly when the operand has the operator's type, which is then its type.
pub proof fn law_tc_unary(st: TcState, op: crate::ast::UnOp, x: SpecExpr, span: crate::error::ErrRange)
    ensures
        ({
            let a = tc_expr(st, x);
            let res = tc_expr(st, SpecExpr { node: SpecExprKind::UnOp(op, Box::new(x)), span });
            a.0.ty is Some ==> {
                &&& (res.1.errors == a.1.errors <==> a.0.ty == Some(op.spec_expected_type()))
                &&& (a.0.ty == Some(op.spec_expected_type()) ==> res.0.ty == Some(op.spec_expected_type()))
            }
        }),
{
    let a = tc_expr(st, x);
    let et = crate::type_check::Ty::spec_of(op.spec_expected_type());
    let res = tc_expr(st, SpecExpr { node: SpecExprKind::UnOp(op, Box::new(x)), span });
    assert(res == try_unify_spec(a.1, x.span, a.0, et));
    if a.0.ty is Some {
        assert(res.1.errors.len() == a.1.errors.len() + (if a.0.ty == et.ty { 0int } else { 1int }));
    }
}

/// [T-If] The condition adds no error of its own exactly when it is a boolean.
/// Without `else` the type is unit; with it, the two branches add no error of their
/// own exactly when they have the same type, which is the type of the whole.
pub proof fn law_tc_if(st: TcState, c: SpecExpr, t: SpecBlock, el: Option<SpecBlock>, span: crate::error::ErrRange)
    ensures
        ({
            let a = tc_expr(st, c);
            let b = try_unify_spec(a.1, span, a.0, crate::type_check::Ty::spec_of(crate::ast::Type::Bool));
            let res = tc_expr(st, SpecExpr { node: SpecExprKind::IfThenElse(Box::new(c), t, el), span });
            &&& (a.0.ty is Some ==> (b.1.errors == a.1.errors <==> a.0.ty == Some(crate::ast::Type::Bool)))
            &&& match el {
                None => res.0.ty == Some(crate::ast::Type::Unit),
                Some(eb) => {
                    let x = tc_block(b.1, eb);
                    let y = tc_block(x.1, t);
                    x.0.ty is Some && y.0.ty is Some ==> (res.1.errors == y.1.errors <==> y.0.ty == x.0.ty)
                        && (y.0.ty == x.0.ty ==> res.0.ty == y.0.ty)
                },
            }
        }),
{
    let a = tc_expr(st, c);
    let bt = crate::type_check::Ty::spec_of(crate::ast::Type::Bool);
    let b = try_unify_spec(a.1, span, a.0, bt);
    let res = tc_expr(st, SpecExpr { node: SpecExprKind::IfThenElse(Box::new(c), t, el), span });
    if a.0.ty is Some {
        assert(b.1.errors.len() == a.1.errors.len() + (if a.0.ty == bt.ty { 0int } else { 1int }));
    }
    match el {
        None => {},
        Some(eb) => {
            let x = tc_block(b.1, eb);
            let y = tc_block(x.1, t);
            assert(res == try_unify_spec(y.1, span, y.0, x.0));
            if x.0.ty is Some && y.0.ty is Some {
                assert(res.1.errors.len() == y.1.errors.len() + (if y.0.ty == x.0.ty { 0int } else { 1int }));
            }
        },
    }
}

/// The check of `println!`'s arguments from position `i` on, each in the state the
/// earlier ones left: the type each argument gets, the errors found inside the
/// arguments, and the errors of the checks that each is an integer.
pub open spec fn println_rest_trace(st: TcState, args: Seq<SpecExpr>, i: int) -> (Seq<crate::type_check::Ty>, int, int)
    decreases args.len() - i,
{
    if i < 0 || i >= args.len() {
        (seq![], 0, 0)
    } else {
        let a = tc_expr(st, args[i]);
        let b = try_unify_spec(a.1, args[i].span, a.0, crate::type_check::Ty::spec_of(crate::ast::Type::I32));
        let r = println_rest_trace(b.1, args, i + 1);
        (seq![a.0] + r.0, (a.1.errors.len() - st.errors.len()) + r.1, (b.1.errors.len() - a.1.errors.len()) + r.2)
    }
}

/// The check of a `println!` call, each argument in the state the earlier ones left:
/// the type each argument gets, the errors found inside the arguments, and the errors
/// of the call's own checks (a first argument that is a string, the others integers).
pub open spec fn println_trace(st: TcState, span: crate::error::ErrRange, args: Seq<SpecExpr>) -> (
    Seq<crate::type_check::Ty>,
    int,
    int,
) {
    if args.len() == 0 {
        (seq![], 0, 1)
    } else {
        let a = tc_expr(st, args[0]);
        let b = try_unify_spec(a.1, span, a.0, crate::type_check::Ty::spec_of(crate::ast::Type::String));
        let r = println_rest_trace(b.1, args, 1);
        (seq![a.0] + r.0, (a.1.errors.len() - st.errors.len()) + r.1, (b.1.errors.len() - a.1.errors.len()) + r.2)
    }
}

proof fn lemma_println_rest_trace(st: TcState, args: Seq<SpecExpr>, i: int)
    requires
        1 <= i <= args.len(),
    ensures
        ({
            let r = println_rest_trace(st, args, i);
            &&& r.0.len() == args.len() - i
            &&& r.2 >= 0
            &&& tc_println_rest(st, args, i).errors.len() == st.errors.len() + r.1 + r.2
            &&& (forall|k: int| 0 <= k < r.0.len() ==> (#[trigger] r.0[k]).ty is Some) ==> (r.2 == 0 <==> forall|k: int|
                0 <= k < r.0.len() ==> (#[trigger] r.0[k]).ty == Some(crate::ast::Type::I32))
        }),
    decreases args.len() - i,
{
    if i < args.len() {
        let a = tc_expr(st, args[i]);
        let i32t = crate::type_check::Ty::spec_of(crate::ast::Type::I32);
        let b = try_unify_spec(a.1, args[i].span, a.0, i32t);
        lemma_println_rest_trace(b.1, args, i + 1);
        let r = println_rest_trace(b.1, args, i + 1);
        let ts = seq![a.0] + r.0;
        assert(b.1.errors.len() == a.1.errors.len() + (if a.0.ty is None || a.0.ty == i32t.ty { 0int } else { 1int }));
        assert(ts[0] == a.0);
        assert forall|k: int| 0 <= k < r.0.len() implies r.0[k] == #[trigger] ts[k + 1] by {}
        if forall|k: int| 0 <= k < ts.len() ==> (#[trigger] ts[k]).ty is Some {
            assert forall|k: int| 0 <= k < r.0.len() implies (#[trigger] r.0[k]).ty is Some by {
                assert(ts[k + 1].ty is Some);
            }
            if forall|k: int| 0 <= k < ts.len() ==> (#[trigger] ts[k]).ty == Some(crate::ast::Type::I32) {
                assert forall|k: int| 0 <= k < r.0.len() implies (#[trigger] r.0[k]).ty == Some(crate::ast::Type::I32) by {
                    assert(ts[k + 1].ty == Some(crate::ast::Type::I32));
                }
            }
            if r.2 + (b.1.errors.len() - a.1.errors.len()) == 0 {
                assert forall|k: int| 0 <= k < ts.len() implies (#[trigger] ts[k]).ty == Some(crate::ast::Type::I32) by {
                    if k > 0 {
                        assert(r.0[k - 1] == ts[k]);
                    }
                }
            }
        }
    }
}

/// [T-Println] `println!` has type unit. Checking its arguments in order, each in the
/// state the earlier ones left, the call adds to the errors found inside its arguments
/// only those of its own checks; where every argument has a known type, it adds none
/// exactly when there is a first argument, a string, and every further one is an integer.
pub proof fn law_tc_println(st: TcState, span: crate::error::ErrRange, args: Seq<SpecExpr>)
    ensures
        tc_call(st, span, crate::vm::println_name(), args).0.ty == Some(crate::ast::Type::Unit),
        ({
            let r = println_trace(st, span, args);
            let ts = r.0;
            &&& ts.len() == args.len()
            &&& tc_call(st, span, crate::vm::println_name(), args).1.errors.len() == st.errors.len() + r.1 + r.2
            &&& (forall|k: int| 0 <= k < ts.len() ==> (#[trigger] ts[k]).ty is Some) ==> (r.2 == 0 <==> (args.len() >= 1
                && ts[0].ty == Some(crate::ast::Type::String)
                && forall|j: int| 1 <= j < ts.len() ==> (#[trigger] ts[j]).ty == Some(crate::ast::Type::I32)))
        }),
{
    if args.len() >= 1 {
        let a = tc_expr(st, args[0]);
        let stt = crate::type_check::Ty::spec_of(crate::ast::Type::String);
        let b = try_unify_spec(a.1, span, a.0, stt);
        lemma_println_rest_trace(b.1, args, 1);
        let r = println_rest_trace(b.1, args, 1);
        let ts = seq![a.0] + r.0;
        assert(b.1.errors.len() == a.1.errors.len() + (if a.0.ty is None || a.0.ty == stt.ty { 0int } else { 1int }));
        assert(ts[0] == a.0);
        assert forall|k: int| 0 <= k < r.0.len() implies r.0[k] == #[trigger] ts[k + 1] by {}
        if forall|k: int| 0 <= k < ts.len() ==> (#[trigger] ts[k]).ty is Some {
            assert forall|k: int| 0 <= k < r.0.len() implies (#[trigger] r.0[k]).ty is Some by {
                assert(ts[k + 1].ty is Some);
            }
            if forall|j: int| 1 <= j < ts.len() ==> (#[trigger] ts[j]).ty == Some(crate::ast::Type::I32) {
                assert forall|k: int| 0 <= k < r.0.len() implies (#[trigger] r.0[k]).ty == Some(crate::ast::Type::I32) by {
                    assert(ts[k + 1].ty == Some(crate::ast::Type::I32));
                }
            }
            if r.2 == 0 {
                assert forall|j: int| 1 <= j < ts.len() implies (#[trigger] ts[j]).ty == Some(crate::ast::Type::I32) by {
                    assert(r.0[j - 1] == ts[j]);
                }
            }
        }
    } else {
        assert(tc_call(st, span, crate::vm::println_name(), args).1.errors.len() == st.errors.len() + 1);
    }
}

// ---------------------------------------------------------------------------
// The type checker and its scopes
//
// What a block binds or declares is known only inside it: after checking an
// expression the bindings and functions in scope are as before.

/// The bindings before and after are the same but for the innermost scope, and the
/// functions are the same.
pub open spec fn scopes_outer_kept(st: TcState, st2: TcState) -> bool {
    &&& st2.scopes.bindings.len() == st.scopes.bindings.len()
    &&& st2.scopes.bindings.drop_last() == st.scopes.bindings.drop_last()
    &&& st2.scopes.functions == st.scopes.functions
}

proof fn lemma_hoist_outer(fs: Seq<Map<Seq<char>, SpecFnDecl>>, stmts: Seq<SpecStatement>, k: int)
    requires
        fs.len() >= 1,
    ensures
        crate::type_check::hoist_into(fs, stmts, k).len() == fs.len(),
        crate::type_check::hoist_into(fs, stmts, k).drop_last() == fs.drop_last(),
    decreases k,
{
    if k > 0 {
        lemma_hoist_outer(fs, stmts, k - 1);
        let h = crate::type_check::hoist_into(fs, stmts, k - 1);
        assert forall|f: SpecFnDecl, id: Seq<char>| define_top(h, id, f).drop_last() =~= h.drop_last() by {}
    }
}

proof fn lemma_define_params_outer(st: TcState, ps: Seq<crate::ast::SpecParam>, k: int)
    requires
        st.scopes.bindings.len() >= 1,
    ensures
        scopes_outer_kept(st, crate::type_check::define_params(st, ps, k)),
    decreases k,
{
    if k > 0 {
        lemma_define_params_outer(st, ps, k - 1);
        let st1 = crate::type_check::define_params(st, ps, k - 1);
        assert(define_top(st1.scopes.bindings, ps[k - 1].id, crate::type_check::param_binding(ps[k - 1])).drop_last()
            =~= st1.scopes.bindings.drop_last());
    }
}

/// Scopes of the type environment: a binding or function declared in an inner scope
/// is what a lookup finds while that scope is open; once it is closed, every lookup
/// gives what it gave before the scope was opened. In a new environment no name is bound.
pub proof fn law_type_env_shadowing(
    bs: Seq<Map<Seq<char>, crate::env::AnnotatedType>>,
    fs: Seq<Map<Seq<char>, SpecFnDecl>>,
    x: Seq<char>,
    a: crate::env::AnnotatedType,
    f: SpecFnDecl,
)
    ensures
        ({
            let inner_bs = define_top(bs.push(Map::empty()), x, a);
            let inner_fs = define_top(fs.push(Map::empty()), f.id, f);
            &&& crate::env::lookup_binding_in(inner_bs, x) == Some(a)
            &&& crate::env::lookup_function_in(inner_fs, f.id) == Some(f)
            &&& pop_top(inner_bs) == bs
            &&& pop_top(inner_fs) == fs
        }),
        crate::env::lookup_binding_in(seq![Map::<Seq<char>, crate::env::AnnotatedType>::empty()], x) is None,
        crate::env::lookup_function_in(seq![Map::<Seq<char>, SpecFnDecl>::empty()], f.id) is None,
{
    let inner_bs = define_top(bs.push(Map::empty()), x, a);
    let inner_fs = define_top(fs.push(Map::empty()), f.id, f);
    assert(inner_bs.drop_last() =~= bs);
    assert(inner_fs.drop_last() =~= fs);
    let e1 = seq![Map::<Seq<char>, crate::env::AnnotatedType>::empty()];
    assert(e1.drop_last().len() == 0);
    assert(crate::env::lookup_binding_in(e1.drop_last(), x) is None);
    assert(!e1.last().contains_key(x));
    let e2 = seq![Map::<Seq<char>, SpecFnDecl>::empty()];
    assert(e2.drop_last().len() == 0);
    assert(crate::env::lookup_function_in(e2.drop_last(), f.id) is None);
    assert(!e2.last().contains_key(f.id));
}

/// Checking an expression leaves the bindings and functions in scope as they were.
pub proof fn law_tc_expr_keeps_scopes(st: TcState, e: SpecExpr)
    ensures
        tc_expr(st, e).1.scopes == st.scopes,
    decreases e, 1int,
{
    match e.node {
        SpecExprKind::BinOp(op, l, r) => {
            law_tc_expr_keeps_scopes(st, *l);
            law_tc_expr_keeps_scopes(tc_expr(st, *l).1, *r);
        },
        SpecExprKind::Par(inner) => law_tc_expr_keeps_scopes(st, *inner),
        SpecExprKind::Call(id, args) => law_tc_call_keeps_scopes(st, e.span, id, args),
        SpecExprKind::IfThenElse(c, t, opt) => {
            law_tc_expr_keeps_scopes(st, *c);
            let a = tc_expr(st, *c);
            let b = try_unify_spec(a.1, e.span, a.0, crate::type_check::Ty::spec_of(crate::ast::Type::Bool));
            match opt {
                Some(eb) => {
                    law_tc_block_keeps_scopes(b.1, eb);
                    law_tc_block_keeps_scopes(tc_block(b.1, eb).1, t);
                },
                None => law_tc_block_keeps_scopes(b.1, t),
            }
        },
        SpecExprKind::Block(b) => law_tc_block_keeps_scopes(st, b),
        SpecExprKind::UnOp(op, x) => law_tc_expr_keeps_scopes(st, *x),
        _ => {},
    }
}

pub proof fn law_tc_call_keeps_scopes(st: TcState, span: crate::error::ErrRange, id: Seq<char>, args: Seq<SpecExpr>)
    ensures
        tc_call(st, span, id, args).1.scopes == st.scopes,
    decreases args, args.len() + 1,
{
    if id == crate::vm::println_name() {
        if args.len() > 0 {
            law_tc_expr_keeps_scopes(st, args[0]);
            let a = tc_expr(st, args[0]);
            let b = try_unify_spec(a.1, span, a.0, crate::type_check::Ty::spec_of(crate::ast::Type::String));
            law_tc_println_rest_keeps_scopes(b.1, args, 1);
        }
    } else {
        match crate::env::lookup_function_in(st.scopes.functions, id) {
            Some(f) => if f.params.len() == args.len() {
                law_tc_call_args_keep_scopes(st, f.params, args, span, 0);
            },
            None => {},
        }
    }
}

pub proof fn law_tc_println_rest_keeps_scopes(st: TcState, args: Seq<SpecExpr>, i: int)
    ensures
        tc_println_rest(st, args, i).scopes == st.scopes,
    decreases args, args.len() - i,
{
    if 0 <= i < args.len() {
        law_tc_expr_keeps_scopes(st, args[i]);
        let a = tc_expr(st, args[i]);
        let b = try_unify_spec(a.1, args[i].span, a.0, crate::type_check::Ty::spec_of(crate::ast::Type::I32));
        law_tc_println_rest_keeps_scopes(b.1, args, i + 1);
    }
}

pub proof fn law_tc_call_args_keep_scopes(
    st: TcState,
    ps: Seq<crate::ast::SpecParam>,
    args: Seq<SpecExpr>,
    span: crate::error::ErrRange,
    i: int,
)
    ensures
        tc_call_args(st, ps, args, span, i).1.scopes == st.scopes,
    decreases args, args.len() - i,
{
    if 0 <= i < args.len() && i < ps.len() {
        match crate::env::lookup_binding_in(st.scopes.bindings, ps[i].id) {
            None => {},
            Some(b) => {
                law_tc_expr_keeps_scopes(st, args[i]);
                let a = tc_expr(st, args[i]);
                let c = try_unify_spec(a.1, args[i].span, b.ty, a.0);
                law_tc_call_args_keep_scopes(c.1, ps, args, span, i + 1);
            },
        }
    }
}

/// Checking a block leaves the bindings and functions in scope as they were: what it
/// binds or declares goes with it.
pub proof fn law_tc_block_keeps_scopes(st: TcState, b: SpecBlock)
    ensures
        tc_block(st, b).1.scopes == st.scopes,
    decreases b, 1int,
{
    let st1 = TcState {
        scopes: crate::env::TypeScopes {
            bindings: st.scopes.bindings.push(Map::empty()),
            functions: crate::type_check::hoist_into(st.scopes.functions.push(Map::empty()), b.statements, b.statements.len() as int),
        },
        errors: st.errors,
    };
    lemma_hoist_outer(st.scopes.functions.push(Map::empty()), b.statements, b.statements.len() as int);
    law_tc_stmts_keep_outer(st1, b.statements, 0, crate::type_check::Ty::spec_of(crate::ast::Type::Unit));
    assert(st1.scopes.bindings.drop_last() =~= st.scopes.bindings);
    assert(st.scopes.functions.push(Map::empty()).drop_last() =~= st.scopes.functions);
}

/// Checking statements changes at most the innermost scope of bindings, and no function scope.
pub proof fn law_tc_stmts_keep_outer(st: TcState, ss: Seq<SpecStatement>, i: int, last: crate::type_check::Ty)
    requires
        st.scopes.bindings.len() >= 1,
    ensures
        scopes_outer_kept(st, tc_stmts(st, ss, i, last).1),
    decreases ss, ss.len() - i,
{
    if 0 <= i < ss.len() {
        law_tc_stmt_keeps_outer(st, ss[i]);
        let a = tc_stmt(st, ss[i]);
        law_tc_stmts_keep_outer(a.1, ss, i + 1, a.0);
    }
}

/// Checking a statement changes at most the innermost scope of bindings, and no function scope.
pub proof fn law_tc_stmt_keeps_outer(st: TcState, s: SpecStatement)
    requires
        st.scopes.bindings.len() >= 1,
    ensures
        scopes_outer_kept(st, tc_stmt(st, s).1),
    decreases s, 1int,
{
    match s.node {
        SpecStmtKind::Let(mutable, id, ty, init) => {
            match init {
                Some(e) => {
                    law_tc_expr_keeps_scopes(st, e);
                    let a = tc_expr(st, e);
                    let t = match ty {
                        Some(t) => crate::type_check::Ty { ty: Some(t.node), span: t.span },
                        None => a.0,
                    };
                    let b = try_unify_spec(a.1, e.span, a.0, t);
                    assert forall|x: crate::env::AnnotatedType| define_top(a.1.scopes.bindings, id, x).drop_last()
                        =~= a.1.scopes.bindings.drop_last() by {}
                    assert forall|x: crate::env::AnnotatedType| define_top(b.1.scopes.bindings, id, x).drop_last()
                        =~= b.1.scopes.bindings.drop_last() by {}
                },
                None => {
                    assert forall|x: crate::env::AnnotatedType| define_top(st.scopes.bindings, id, x).drop_last()
                        =~= st.scopes.bindings.drop_last() by {}
                },
            }
        },
        SpecStmtKind::Assign(lhs, rhs) => {
            match lhs.node {
                SpecExprKind::Ident(id) => {
                    law_tc_expr_keeps_scopes(st, rhs);
                    let a = tc_expr(st, rhs);
                    assert forall|t: crate::type_check::Ty, x: crate::env::AnnotatedType|
                        define_top(try_unify_spec(a.1, rhs.span, t, a.0).1.scopes.bindings, id, x).drop_last()
                            =~= st.scopes.bindings.drop_last() by {}
                },
                _ => {},
            }
        },
        SpecStmtKind::While(c, b) => {
            law_tc_expr_keeps_scopes(st, c);
            let a = tc_expr(st, c);
            let x = try_unify_spec(a.1, c.span, a.0, crate::type_check::Ty::spec_of(crate::ast::Type::Bool));
            law_tc_block_keeps_scopes(x.1, b);
        },
        SpecStmtKind::Expr(e) => law_tc_expr_keeps_scopes(st, e),
        SpecStmtKind::Fn(f) => lemma_define_params_outer(st, f.params, f.params.len() as int),
    }
}

// ---------------------------------------------------------------------------
// Code generation and scopes
//
// What a block declares has its stack slot only inside the block: once the code of
// an expression is generated, the names in scope and their slots are as before.

/// The scopes of names before and after are the same but for the innermost one.
pub open spec fn cg_outer_kept(s: CgState, s2: CgState) -> bool {
    &&& s2.values.len() == s.values.len()
    &&& s2.values.drop_last() == s.values.drop_last()
}

/// The code of an expression leaves the names in scope, and their slots, as they were.
pub proof fn law_cg_expr_keeps_scopes(s: CgState, e: SpecExpr)
    requires
        s.values.len() >= 1,
    ensures
        cg_expr(s, e) matches Ok(s2) ==> s2.values == s.values,
    decreases e, 2int,
{
    match e.node {
        SpecExprKind::BinOp(op, l, r) => {
            law_cg_expr_keeps_scopes(s, *l);
            match cg_expr(s, *l) {
                Ok(s1) => law_cg_expr_keeps_scopes(s1, *r),
                Err(_) => {},
            }
        },
        SpecExprKind::Par(x) => law_cg_expr_keeps_scopes(s, *x),
        SpecExprKind::Call(name, args) => law_cg_call_keeps_scopes(s, name, args),
        SpecExprKind::IfThenElse(c, t, el) => {
            match define_label_spec(s, "else_then"@) {
                Ok((else_l, s1)) => match define_label_spec(s1, "end_if"@) {
                    Ok((end_l, s2)) => {
                        law_cg_expr_keeps_scopes(s2, *c);
                        match cg_expr(s2, *c) {
                            Ok(s3) => {
                                let s3b = emit(s3, pop_code(Reg::T0) + seq![plain(Op::Beq(Reg::T0, Reg::Zero, else_l))]);
                                law_cg_block_keeps_scopes(s3b, t);
                                match cg_block(s3b, t) {
                                    Ok(s4) => {
                                        let s5 = emit(s4, semi_unit(t.semi) + seq![plain(Op::B(end_l)), nop_at(else_l)]);
                                        match el {
                                            Some(eb) => law_cg_block_keeps_scopes(s5, eb),
                                            None => {},
                                        }
                                    },
                                    Err(_) => {},
                                }
                            },
                            Err(_) => {},
                        }
                    },
                    Err(_) => {},
                },
                Err(_) => {},
            }
        },
        SpecExprKind::Block(b) => law_cg_block_expr_keeps_scopes(s, b),
        SpecExprKind::UnOp(op, x) => law_cg_expr_keeps_scopes(s, *x),
        _ => {},
    }
}

/// The code of a call leaves the names in scope as they were.
pub proof fn law_cg_call_keeps_scopes(s: CgState, name: Seq<char>, args: Seq<SpecExpr>)
    requires
        s.values.len() >= 1,
    ensures
        cg_call(s, name, args) matches Ok(s2) ==> s2.values == s.values,
    decreases args, args.len() + 2,
{
    match lookup_label_in(s.labels, name) {
        Some(l) => law_cg_call_impl_keeps_scopes(s, l, args),
        None => {},
    }
}

pub proof fn law_cg_call_impl_keeps_scopes(s: CgState, label: Seq<char>, args: Seq<SpecExpr>)
    requires
        s.values.len() >= 1,
    ensures
        cg_call_impl(s, label, args) matches Ok(s2) ==> s2.values == s.values,
    decreases args, args.len() + 1,
{
    law_cg_args_keep_scopes(emit(s, push_code(Reg::Ra)), args, 0);
}

pub proof fn law_cg_args_keep_scopes(s: CgState, args: Seq<SpecExpr>, i: int)
    requires
        s.values.len() >= 1,
    ensures
        cg_args(s, args, i) matches Ok(s2) ==> s2.values == s.values,
    decreases args, args.len() - i,
{
    if 0 <= i < args.len() {
        law_cg_expr_keeps_scopes(s, args[i]);
        match cg_expr(s, args[i]) {
            Ok(s1) => law_cg_args_keep_scopes(s1, args, i + 1),
            Err(_) => {},
        }
    }
}

/// The code of a block leaves the names in scope as they were: what it declares goes with it.
pub proof fn law_cg_block_keeps_scopes(s: CgState, b: SpecBlock)
    requires
        s.values.len() >= 1,
    ensures
        cg_block(s, b) matches Ok(s2) ==> s2.values == s.values,
    decreases b, 1int,
{
    let s1 = CgState { values: s.values.push(Map::empty()), ..s };
    law_cg_stmts_keep_outer(s1, b.statements, b.semi, 0);
    match cg_stmts(s1, b.statements, b.semi, 0) {
        Ok(s2) => {
            assert(s1.values.drop_last() =~= s.values);
        },
        Err(_) => {},
    }
}

pub proof fn law_cg_block_expr_keeps_scopes(s: CgState, b: SpecBlock)
    requires
        s.values.len() >= 1,
    ensures
        cg_block_expr(s, b) matches Ok(s2) ==> s2.values == s.values,
    decreases b, 2int,
{
    law_cg_block_keeps_scopes(s, b);
}

/// The statements of a block change at most the innermost scope.
pub proof fn law_cg_stmts_keep_outer(s: CgState, ss: Seq<SpecStatement>, semi: bool, i: int)
    requires
        s.values.len() >= 1,
    ensures
        cg_stmts(s, ss, semi, i) matches Ok(s2) ==> cg_outer_kept(s, s2),
    decreases ss, ss.len() - i,
{
    if 0 <= i < ss.len() {
        law_cg_block_item_keeps_outer(s, ss[i], i + 1 == ss.len() && !semi);
        match cg_block_item(s, ss[i], i + 1 == ss.len() && !semi) {
            Ok(s1) => law_cg_stmts_keep_outer(s1, ss, semi, i + 1),
            Err(_) => {},
        }
    }
}

pub proof fn law_cg_block_item_keeps_outer(s: CgState, st: SpecStatement, is_value: bool)
    requires
        s.values.len() >= 1,
    ensures
        cg_block_item(s, st, is_value) matches Ok(s2) ==> cg_outer_kept(s, s2),
    decreases st, 3int,
{
    match st.node {
        SpecStmtKind::Expr(e) => law_cg_expr_keeps_scopes(s, e),
        _ => law_cg_stmt_keeps_outer(s, st),
    }
}

/// A statement changes at most the innermost scope: a `let` gives a name a slot there.
pub proof fn law_cg_stmt_keeps_outer(s: CgState, st: SpecStatement)
    requires
        s.values.len() >= 1,
    ensures
        cg_stmt(s, st) matches Ok(s2) ==> cg_outer_kept(s, s2),
    decreases st, 2int,
{
    match st.node {
        SpecStmtKind::Let(_, id, _, init) => {
            match init {
                Some(e) => law_cg_expr_keeps_scopes(s, e),
                None => {},
            }
            let r = match init {
                Some(e) => match cg_expr(s, e) {
                    Err(x) => Err(x),
                    Ok(s1) => Ok(emit(s1, pop_code(Reg::T0))),
                },
                None => Ok(emit(s, seq![plain(Op::Addiu(Reg::T0, Reg::Zero, 0))])),
            };
            match r {
                Ok(s1) => {
                    assert(define_top(s1.values, id, s1.stack_offset).drop_last() =~= s1.values.drop_last());
                },
                Err(_) => {},
            }
        },
        SpecStmtKind::Assign(lhs, rhs) => law_cg_expr_keeps_scopes(s, rhs),
        SpecStmtKind::While(c, b) => {
            match define_label_spec(s, "while_start"@) {
                Ok((start_l, s1)) => match define_label_spec(emit(s1, seq![nop_at(start_l)]), "while_end"@) {
                    Ok((end_l, s2)) => {
                        law_cg_expr_keeps_scopes(s2, c);
                        match cg_expr(s2, c) {
                            Ok(s3) => law_cg_block_keeps_scopes(
                                emit(s3, pop_code(Reg::T0) + seq![plain(Op::Beq(Reg::T0, Reg::Zero, end_l))]),
                                b,
                            ),
                            Err(_) => {},
                        }
                    },
                    Err(_) => {},
                },
                Err(_) => {},
            }
        },
        SpecStmtKind::Expr(e) => law_cg_expr_keeps_scopes(s, e),
        SpecStmtKind::Fn(_) => {},
    }
}

/// The code of a function leaves the scopes and the frame of the surrounding code as they were.
pub proof fn law_cg_fn_keeps_frame(s: CgState, f: SpecFnDecl)
    ensures
        cg_fn_decl(s, f) matches Ok(s2) ==> s2.values == s.values && s2.stack_offset == s.stack_offset
            && s2.fn_local_count == s.fn_local_count,
{
}

} // verus!
