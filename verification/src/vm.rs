use vstd::prelude::*;
use vstd::hash_map::StringHashMap;
use crate::ast::{
    Arguments, BinOp, Block, Expr, ExprKind, FnDeclaration, Literal, Mutable, Prog, SpecBlock, SpecExpr,
    SpecExprKind, SpecFnDecl, SpecLiteral, SpecParam, SpecStatement, SpecStmtKind, Statement, StatementKind,
    Type, TypeExpr, UnOp, fn_view,
};
use crate::display::expr_text;
use crate::env::{
    Env, Machine, assign_in, define_top, lookup_fn_in, lookup_value_in, pop_top,
};
use crate::error::{Error, SpecVmError, VmError};
use crate::intrinsics::{println_spec, println_values};

verus! {

// ---------------------------------------------------------------------------
// Values

/// A run-time value: a literal, a binding declared without a value, or the value of
/// a `mut` binding.
#[derive(Debug)]
pub enum Val {
    Lit(Literal),
    UnInit,
    Mut(Box<Val>),
}

/// The mathematical counterpart of [`Val`].
pub enum SpecVal {
    Lit(SpecLiteral),
    UnInit,
    Mut(Box<SpecVal>),
}

pub open spec fn val_view(v: Val) -> SpecVal
    decreases v,
{
    match v {
        Val::Lit(l) => SpecVal::Lit(l@),
        Val::UnInit => SpecVal::UnInit,
        Val::Mut(b) => SpecVal::Mut(Box::new(val_view(*b))),
    }
}

impl View for Val {
    type V = SpecVal;

    open spec fn view(&self) -> SpecVal {
        val_view(*self)
    }
}

impl Literal {
    /// A copy of the literal.
    pub fn copy(&self) -> (r: Literal)
        ensures
            r@ == self@,
    {
        match self {
            Literal::Bool(b) => Literal::Bool(*b),
            Literal::Int(i) => Literal::Int(*i),
            Literal::String(s) => Literal::String(s.clone()),
            Literal::Unit => Literal::Unit,
        }
    }
}

pub open spec fn unit() -> SpecVal {
    SpecVal::Lit(SpecLiteral::Unit)
}

/// The type of a value that is a literal.
pub open spec fn val_type(v: SpecVal) -> Option<Type> {
    match v {
        SpecVal::Lit(SpecLiteral::Int(_)) => Some(Type::I32),
        SpecVal::Lit(SpecLiteral::Bool(_)) => Some(Type::Bool),
        SpecVal::Lit(SpecLiteral::String(_)) => Some(Type::String),
        SpecVal::Lit(SpecLiteral::Unit) => Some(Type::Unit),
        _ => None,
    }
}

impl Val {
    /// A copy of the value.
    pub fn copy(&self) -> (r: Val)
        ensures
            r@ == self@,
        decreases self,
    {
        match self {
            Val::Lit(l) => Val::Lit(l.copy()),
            Val::UnInit => Val::UnInit,
            Val::Mut(b) => Val::Mut(Box::new(b.copy())),
        }
    }

    /// The integer this value holds.
    pub fn get_int(&self) -> (r: Result<i32, Error>)
        ensures
            match self@ {
                SpecVal::Lit(SpecLiteral::Int(i)) => r == Ok::<i32, Error>(i),
                _ => r matches Err(Error::Vm(e)) && e@ == (SpecVmError::TypeMismatch { expected: Type::I32, got: self@ }),
            },
    {
        match self {
            Val::Lit(Literal::Int(i)) => Ok(*i),
            _ => Err(Error::Vm(VmError::TypeMismatch { expected: Type::I32, got: self.copy() })),
        }
    }

    /// The boolean this value holds.
    pub fn get_bool(&self) -> (r: Result<bool, Error>)
        ensures
            match self@ {
                SpecVal::Lit(SpecLiteral::Bool(b)) => r == Ok::<bool, Error>(b),
                _ => r matches Err(Error::Vm(e)) && e@ == (SpecVmError::TypeMismatch { expected: Type::Bool, got: self@ }),
            },
    {
        match self {
            Val::Lit(Literal::Bool(b)) => Ok(*b),
            _ => Err(Error::Vm(VmError::TypeMismatch { expected: Type::Bool, got: self.copy() })),
        }
    }

    /// Whether the two values are the same value.
    pub fn same(&self, other: &Val) -> (b: bool)
        ensures
            b == (self@ == other@),
        decreases self,
    {
        match (self, other) {
            (Val::Lit(x), Val::Lit(y)) => match (x, y) {
                (Literal::Bool(a), Literal::Bool(b)) => *a == *b,
                (Literal::Int(a), Literal::Int(b)) => *a == *b,
                (Literal::String(a), Literal::String(b)) => *a == *b,
                (Literal::Unit, Literal::Unit) => true,
                _ => false,
            },
            (Val::UnInit, Val::UnInit) => true,
            (Val::Mut(a), Val::Mut(b)) => a.same(b),
            _ => false,
        }
    }

    /// Checks that the value is a literal of type `t`.
    pub fn check_type(&self, t: &Type) -> (r: Result<(), Error>)
        ensures
            match r {
                Ok(()) => val_type(self@) == Some(*t),
                Err(e) => val_type(self@) != Some(*t) && (e matches Error::Vm(ve)
                    && ve@ == (SpecVmError::TypeMismatch { expected: *t, got: self@ })),
            },
    {
        let found: Option<Type> = match self {
            Val::Lit(Literal::Int(_)) => Some(Type::I32),
            Val::Lit(Literal::Bool(_)) => Some(Type::Bool),
            Val::Lit(Literal::String(_)) => Some(Type::String),
            Val::Lit(Literal::Unit) => Some(Type::Unit),
            _ => None,
        };
        match found {
            Some(f) => if f == *t {
                return Ok(());
            },
            None => {},
        }
        Err(Error::Vm(VmError::TypeMismatch { expected: *t, got: self.copy() }))
    }
}

// ---------------------------------------------------------------------------
// Operators

/// The result of a binary operator on two values.
pub open spec fn bin_op_spec(op: BinOp, l: SpecVal, r: SpecVal) -> Result<SpecVal, SpecVmError> {
    match op {
        BinOp::Eq => Ok(SpecVal::Lit(SpecLiteral::Bool(l == r))),
        BinOp::And | BinOp::Or => match (l, r) {
            (SpecVal::Lit(SpecLiteral::Bool(a)), SpecVal::Lit(SpecLiteral::Bool(b))) => Ok(
                SpecVal::Lit(SpecLiteral::Bool(if op == BinOp::And { a && b } else { a || b })),
            ),
            (SpecVal::Lit(SpecLiteral::Bool(_)), _) => Err(SpecVmError::TypeMismatch { expected: Type::Bool, got: r }),
            _ => Err(SpecVmError::TypeMismatch { expected: Type::Bool, got: l }),
        },
        _ => match (l, r) {
            (SpecVal::Lit(SpecLiteral::Int(a)), SpecVal::Lit(SpecLiteral::Int(b))) => match op {
                BinOp::Lt => Ok(SpecVal::Lit(SpecLiteral::Bool(a < b))),
                BinOp::Gt => Ok(SpecVal::Lit(SpecLiteral::Bool(a > b))),
                BinOp::Div => if b == 0 {
                    Err(SpecVmError::DivisionByZero)
                } else {
                    match a.checked_div(b) {
                        Some(q) => Ok(SpecVal::Lit(SpecLiteral::Int(q))),
                        None => Err(SpecVmError::Overflow),
                    }
                },
                _ => {
                    let v: int = if op == BinOp::Add { a + b } else if op == BinOp::Sub { a - b } else { a * b };
                    if i32::MIN <= v <= i32::MAX {
                        Ok(SpecVal::Lit(SpecLiteral::Int(v as i32)))
                    } else {
                        Err(SpecVmError::Overflow)
                    }
                },
            },
            (SpecVal::Lit(SpecLiteral::Int(_)), _) => Err(SpecVmError::TypeMismatch { expected: Type::I32, got: r }),
            _ => Err(SpecVmError::TypeMismatch { expected: Type::I32, got: l }),
        },
    }
}

/// The result of a unary operator on a value.
pub open spec fn un_op_spec(op: UnOp, v: SpecVal) -> Result<SpecVal, SpecVmError> {
    match op {
        UnOp::Neg => match v {
            SpecVal::Lit(SpecLiteral::Int(i)) => if i == i32::MIN {
                Err(SpecVmError::Overflow)
            } else {
                Ok(SpecVal::Lit(SpecLiteral::Int((-i) as i32)))
            },
            _ => Err(SpecVmError::TypeMismatch { expected: Type::I32, got: v }),
        },
        UnOp::Bang => match v {
            SpecVal::Lit(SpecLiteral::Bool(b)) => Ok(SpecVal::Lit(SpecLiteral::Bool(!b))),
            _ => Err(SpecVmError::TypeMismatch { expected: Type::Bool, got: v }),
        },
    }
}

/// Whether `r` is the executable counterpart of the operator result `s`.
pub open spec fn val_agrees(r: Result<Val, Error>, s: Result<SpecVal, SpecVmError>) -> bool {
    match r {
        Ok(v) => s == Ok::<SpecVal, SpecVmError>(v@),
        Err(Error::Vm(e)) => s == Err::<SpecVal, SpecVmError>(e@),
        Err(_) => false,
    }
}

impl BinOp {
    /// Applies the operator to two values.
    pub fn eval(&self, left: Val, right: Val) -> (r: Result<Val, Error>)
        ensures
            val_agrees(r, bin_op_spec(*self, left@, right@)),
    {
        match self {
            BinOp::Eq => {
                let b = left.same(&right);
                Ok(Val::Lit(Literal::Bool(b)))
            },
            BinOp::And | BinOp::Or => match (&left, &right) {
                (Val::Lit(Literal::Bool(a)), Val::Lit(Literal::Bool(b))) => {
                    let v = match self {
                        BinOp::And => *a && *b,
                        _ => *a || *b,
                    };
                    Ok(Val::Lit(Literal::Bool(v)))
                },
                (Val::Lit(Literal::Bool(_)), _) => Err(Error::Vm(VmError::TypeMismatch { expected: Type::Bool, got: right })),
                _ => Err(Error::Vm(VmError::TypeMismatch { expected: Type::Bool, got: left })),
            },
            _ => match (&left, &right) {
                (Val::Lit(Literal::Int(a)), Val::Lit(Literal::Int(b))) => {
                    let a = *a;
                    let b = *b;
                    match self {
                        BinOp::Lt => Ok(Val::Lit(Literal::Bool(a < b))),
                        BinOp::Gt => Ok(Val::Lit(Literal::Bool(a > b))),
                        BinOp::Div => if b == 0 {
                            Err(Error::Vm(VmError::DivisionByZero))
                        } else {
                            match a.checked_div(b) {
                                Some(q) => Ok(Val::Lit(Literal::Int(q))),
                                None => Err(Error::Vm(VmError::Overflow)),
                            }
                        },
                        BinOp::Add => match a.checked_add(b) {
                            Some(v) => Ok(Val::Lit(Literal::Int(v))),
                            None => Err(Error::Vm(VmError::Overflow)),
                        },
                        BinOp::Sub => match a.checked_sub(b) {
                            Some(v) => Ok(Val::Lit(Literal::Int(v))),
                            None => Err(Error::Vm(VmError::Overflow)),
                        },
                        _ => match a.checked_mul(b) {
                            Some(v) => Ok(Val::Lit(Literal::Int(v))),
                            None => Err(Error::Vm(VmError::Overflow)),
                        },
                    }
                },
                (Val::Lit(Literal::Int(_)), _) => Err(Error::Vm(VmError::TypeMismatch { expected: Type::I32, got: right })),
                _ => Err(Error::Vm(VmError::TypeMismatch { expected: Type::I32, got: left })),
            },
        }
    }
}

impl UnOp {
    /// Applies the operator to a value.
    pub fn eval(&self, v: Val) -> (r: Result<Val, Error>)
        ensures
            val_agrees(r, un_op_spec(*self, v@)),
    {
        match self {
            UnOp::Neg => match &v {
                Val::Lit(Literal::Int(i)) => if *i == i32::MIN {
                    Err(Error::Vm(VmError::Overflow))
                } else {
                    Ok(Val::Lit(Literal::Int(-*i)))
                },
                _ => Err(Error::Vm(VmError::TypeMismatch { expected: Type::I32, got: v })),
            },
            UnOp::Bang => match &v {
                Val::Lit(Literal::Bool(b)) => Ok(Val::Lit(Literal::Bool(!*b))),
                _ => Err(Error::Vm(VmError::TypeMismatch { expected: Type::Bool, got: v })),
            },
        }
    }
}

// ---------------------------------------------------------------------------
// The semantics of evaluation
//
// `fuel` bounds the work: each call and each further iteration of a loop takes one
// unit from the budget of what runs inside it, and evaluation stops with
// `OutOfFuel` where a call or an iteration finds none left.

pub open spec fn println_name() -> Seq<char> {
    seq!['p', 'r', 'i', 'n', 't', 'l', 'n', '!']
}

pub open spec fn main_name() -> Seq<char> {
    seq!['m', 'a', 'i', 'n']
}

/// What a binding stores: the value, wrapped in `Mut` for a mutable binding.
pub open spec fn stored(mutable: bool, v: SpecVal) -> SpecVal {
    if mutable {
        SpecVal::Mut(Box::new(v))
    } else {
        v
    }
}

/// The scope that binds the first `k` parameters to the first `k` argument values.
pub open spec fn bind_params(ps: Seq<SpecParam>, vs: Seq<SpecVal>, k: int) -> Map<Seq<char>, SpecVal>
    decreases k,
{
    if k <= 0 {
        Map::empty()
    } else {
        bind_params(ps, vs, k - 1).insert(ps[k - 1].id, stored(ps[k - 1].mutable, vs[k - 1]))
    }
}

/// The function scope a block opens: the functions its first `k` statements declare.
pub open spec fn hoist(stmts: Seq<SpecStatement>, k: int) -> Map<Seq<char>, SpecFnDecl>
    decreases k,
{
    if k <= 0 {
        Map::empty()
    } else {
        match stmts[k - 1].node {
            SpecStmtKind::Fn(f) => hoist(stmts, k - 1).insert(f.id, f),
            _ => hoist(stmts, k - 1),
        }
    }
}

/// `scope` with the first `k` declarations of `fs` added.
pub open spec fn insert_fns(scope: Map<Seq<char>, SpecFnDecl>, fs: Seq<SpecFnDecl>, k: int) -> Map<Seq<char>, SpecFnDecl>
    decreases k,
{
    if k <= 0 {
        scope
    } else {
        insert_fns(scope, fs, k - 1).insert(fs[k - 1].id, fs[k - 1])
    }
}

/// The value of an expression and the machine after it.
pub open spec fn eval_expr_spec(fuel: nat, m: Machine, e: SpecExpr) -> Result<(SpecVal, Machine), SpecVmError>
    decreases fuel, e, 2int,
{
    match e.node {
        SpecExprKind::Ident(id) => match lookup_value_in(m.values, id) {
            Some(v) => Ok((v, m)),
            None => Err(SpecVmError::NoValFound(id)),
        },
        SpecExprKind::Lit(l) => Ok((SpecVal::Lit(l), m)),
        SpecExprKind::BinOp(op, l, r) => match eval_expr_spec(fuel, m, *l) {
            Err(err) => Err(err),
            Ok((lv, m1)) => match eval_expr_spec(fuel, m1, *r) {
                Err(err) => Err(err),
                Ok((rv, m2)) => match bin_op_spec(op, lv, rv) {
                    Ok(v) => Ok((v, m2)),
                    Err(err) => Err(err),
                },
            },
        },
        SpecExprKind::Par(inner) => eval_expr_spec(fuel, m, *inner),
        SpecExprKind::Call(name, args) => call_spec(fuel, m, name, args),
        SpecExprKind::IfThenElse(c, t, el) => match eval_expr_spec(fuel, m, *c) {
            Err(err) => Err(err),
            Ok((cv, m1)) => match cv {
                SpecVal::Lit(SpecLiteral::Bool(b)) => if b {
                    eval_block_spec(fuel, m1, t)
                } else {
                    match el {
                        Some(eb) => eval_block_spec(fuel, m1, eb),
                        None => Ok((unit(), m1)),
                    }
                },
                _ => Err(SpecVmError::TypeMismatch { expected: Type::Bool, got: cv }),
            },
        },
        SpecExprKind::Block(b) => eval_block_spec(fuel, m, b),
        SpecExprKind::UnOp(op, x) => match eval_expr_spec(fuel, m, *x) {
            Err(err) => Err(err),
            Ok((v, m1)) => match un_op_spec(op, v) {
                Ok(r) => Ok((r, m1)),
                Err(err) => Err(err),
            },
        },
    }
}

/// The arguments from position `i` on evaluated, left to right, after the values `acc`.
pub open spec fn eval_args_spec(fuel: nat, m: Machine, args: Seq<SpecExpr>, i: int, acc: Seq<SpecVal>) -> Result<(Seq<SpecVal>, Machine), SpecVmError>
    decreases fuel, args, args.len() - i,
{
    if i < 0 || i >= args.len() {
        Ok((acc, m))
    } else {
        match eval_expr_spec(fuel, m, args[i]) {
            Err(err) => Err(err),
            Ok((v, m1)) => eval_args_spec(fuel, m1, args, i + 1, acc.push(v)),
        }
    }
}

/// A call: the arguments are evaluated; `println!` then prints and gives unit. Otherwise the
/// callee runs with a scope of its parameters, seeing the function scopes up to the
/// one that declares it, and those are back in place afterwards.
pub open spec fn call_spec(fuel: nat, m: Machine, name: Seq<char>, args: Seq<SpecExpr>) -> Result<(SpecVal, Machine), SpecVmError>
    decreases fuel, args, args.len() + 1,
{
    match eval_args_spec(fuel, m, args, 0, seq![]) {
        Err(err) => Err(err),
        Ok((vals, m1)) => if name == println_name() {
            Ok((unit(), Machine { values: m1.values, functions: m1.functions, out: m1.out + println_spec(vals) }))
        } else {
            match lookup_fn_in(m1.functions, name) {
                None => Err(SpecVmError::NoFunctionFound(name)),
                Some((i, f)) => if f.params.len() != vals.len() {
                    Err(SpecVmError::ParameterArityMismatch {
                        id: name,
                        expected: f.params.len() as usize,
                        got: vals.len() as usize,
                    })
                } else if fuel == 0 {
                    Err(SpecVmError::OutOfFuel)
                } else {
                    let callee = Machine {
                        values: m1.values.push(bind_params(f.params, vals, vals.len() as int)),
                        functions: m1.functions.subrange(0, i + 1),
                        out: m1.out,
                    };
                    match eval_block_spec((fuel - 1) as nat, callee, f.body) {
                        Err(err) => Err(err),
                        Ok((v, m2)) => Ok((
                            v,
                            Machine {
                                values: pop_top(m2.values),
                                functions: m2.functions + m1.functions.subrange(i + 1, m1.functions.len() as int),
                                out: m2.out,
                            },
                        )),
                    }
                }
            }
        },
    }
}

/// A block runs in new scopes that know its functions from the start; its value is
/// that of its last statement, or unit where it ends with `;`.
pub open spec fn eval_block_spec(fuel: nat, m: Machine, b: SpecBlock) -> Result<(SpecVal, Machine), SpecVmError>
    decreases fuel, b, 1int,
{
    let m1 = Machine {
        values: m.values.push(Map::empty()),
        functions: m.functions.push(hoist(b.statements, b.statements.len() as int)),
        out: m.out,
    };
    match eval_stmts_spec(fuel, m1, b.statements, 0, unit()) {
        Err(err) => Err(err),
        Ok((v, m2)) => Ok((
            if b.semi { unit() } else { v },
            Machine { values: pop_top(m2.values), functions: pop_top(m2.functions), out: m2.out },
        )),
    }
}

/// The statements from position `i` on, run in order; `last` is the value of the one before.
pub open spec fn eval_stmts_spec(fuel: nat, m: Machine, ss: Seq<SpecStatement>, i: int, last: SpecVal) -> Result<(SpecVal, Machine), SpecVmError>
    decreases fuel, ss, ss.len() - i,
{
    if i < 0 || i >= ss.len() {
        Ok((last, m))
    } else {
        match eval_stmt_spec(fuel, m, ss[i]) {
            Err(err) => Err(err),
            Ok((v, m1)) => eval_stmts_spec(fuel, m1, ss, i + 1, v),
        }
    }
}

pub open spec fn eval_stmt_spec(fuel: nat, m: Machine, s: SpecStatement) -> Result<(SpecVal, Machine), SpecVmError>
    decreases fuel, s, 2int,
{
    match s.node {
        SpecStmtKind::Let(mutable, id, _ty, init) => let_spec(fuel, m, mutable, id, init),
        SpecStmtKind::Assign(lhs, rhs) => assign_spec(fuel, m, lhs, rhs),
        SpecStmtKind::While(_, _) => eval_while_spec(fuel, m, s),
        SpecStmtKind::Expr(e) => eval_expr_spec(fuel, m, e),
        SpecStmtKind::Fn(f) => Ok((unit(), Machine { values: m.values, functions: define_top(m.functions, f.id, f), out: m.out })),
    }
}

/// `let`: binds `id` in the innermost scope to the value of `init`, or to nothing yet.
pub open spec fn let_spec(fuel: nat, m: Machine, mutable: bool, id: Seq<char>, init: Option<SpecExpr>) -> Result<(SpecVal, Machine), SpecVmError>
    decreases fuel, init, 0int,
{
    match init {
        None => Ok((
            unit(),
            Machine { values: define_top(m.values, id, stored(mutable, SpecVal::UnInit)), functions: m.functions, out: m.out },
        )),
        Some(e) => match eval_expr_spec(fuel, m, e) {
            Err(err) => Err(err),
            Ok((v, m1)) => Ok((
                unit(),
                Machine { values: define_top(m1.values, id, stored(mutable, v)), functions: m1.functions, out: m1.out },
            )),
        },
    }
}

/// Assignment: the right-hand side is evaluated, then stored into the binding the
/// left-hand side names.
pub open spec fn assign_spec(fuel: nat, m: Machine, lhs: SpecExpr, rhs: SpecExpr) -> Result<(SpecVal, Machine), SpecVmError>
    decreases fuel, rhs, 3int,
{
    match eval_expr_spec(fuel, m, rhs) {
        Err(err) => Err(err),
        Ok((v, m1)) => match lhs.node {
            SpecExprKind::Ident(id) => match assign_in(m1.values, id, v) {
                Some(vs) => Ok((unit(), Machine { values: vs, functions: m1.functions, out: m1.out })),
                None => Err(SpecVmError::NoValFound(id)),
            },
            _ => Err(SpecVmError::IllegalAssignment(expr_text(lhs))),
        },
    }
}

/// An assignment whose right-hand side evaluates, and whose left-hand side is not a
/// name or names nothing bound.
pub open spec fn assign_target_missing(fuel: nat, m: Machine, lhs: SpecExpr, rhs: SpecExpr) -> bool {
    match eval_expr_spec(fuel, m, rhs) {
        Ok((v, m1)) => match lhs.node {
            SpecExprKind::Ident(id) => assign_in(m1.values, id, v) is None,
            _ => true,
        },
        Err(_) => false,
    }
}

/// A `while` statement: its value is unit.
pub open spec fn eval_while_spec(fuel: nat, m: Machine, s: SpecStatement) -> Result<(SpecVal, Machine), SpecVmError>
    decreases fuel, s, 1int,
{
    match s.node {
        SpecStmtKind::While(c, body) => match eval_expr_spec(fuel, m, c) {
            Err(err) => Err(err),
            Ok((cv, m1)) => match cv {
                SpecVal::Lit(SpecLiteral::Bool(b)) => if !b {
                    Ok((unit(), m1))
                } else if fuel == 0 {
                    Err(SpecVmError::OutOfFuel)
                } else {
                    match eval_block_spec(fuel, m1, body) {
                        Err(err) => Err(err),
                        Ok((_, m2)) => eval_while_spec((fuel - 1) as nat, m2, s),
                    }
                },
                _ => Err(SpecVmError::TypeMismatch { expected: Type::Bool, got: cv }),
            },
        },
        _ => Ok((unit(), m)),
    }
}

/// The value of an expression, checked against a type where one is given.
pub open spec fn eval_type_spec(fuel: nat, m: Machine, e: SpecExpr, ty: Option<Type>) -> Result<(SpecVal, Machine), SpecVmError> {
    match eval_expr_spec(fuel, m, e) {
        Err(err) => Err(err),
        Ok((v, m1)) => match ty {
            None => Ok((v, m1)),
            Some(t) => if val_type(v) == Some(t) {
                Ok((v, m1))
            } else {
                Err(SpecVmError::TypeMismatch { expected: t, got: v })
            },
        },
    }
}

/// A program: its functions join the innermost function scope, then the body of
/// `main` runs.
pub open spec fn eval_prog_spec(fuel: nat, m: Machine, fs: Seq<SpecFnDecl>) -> Result<(SpecVal, Machine), SpecVmError> {
    let m1 = Machine {
        values: m.values,
        functions: m.functions.update(m.functions.len() - 1, insert_fns(m.functions.last(), fs, fs.len() as int)),
        out: m.out,
    };
    match lookup_fn_in(m1.functions, main_name()) {
        None => Err(SpecVmError::NoMainFound),
        Some((_, f)) => eval_block_spec(fuel, m1, f.body),
    }
}

pub open spec fn opt_expr_view(o: Option<Expr>) -> Option<SpecExpr> {
    match o {
        Some(e) => Some(e@),
        None => None,
    }
}

/// The machine a new virtual machine starts in.
pub open spec fn initial_machine() -> Machine {
    Machine { values: seq![Map::empty()], functions: seq![Map::empty()], out: seq![] }
}

/// A call whose arguments all evaluate, and that fails before its callee runs: no
/// function of that name, the wrong number of arguments, or no budget left.
pub open spec fn call_fails_before_callee(fuel: nat, m: Machine, name: Seq<char>, args: Seq<SpecExpr>) -> bool {
    match eval_args_spec(fuel, m, args, 0, seq![]) {
        Ok((vals, m1)) => name != println_name() && match lookup_fn_in(m1.functions, name) {
            None => true,
            Some((_, f)) => f.params.len() != vals.len() || fuel == 0,
        },
        Err(_) => false,
    }
}

/// Whether `r` is the executable counterpart of the outcome `s`, with `m` the machine after it.
pub open spec fn outcome(r: Result<Val, Error>, s: Result<(SpecVal, Machine), SpecVmError>, m: Machine) -> bool {
    match r {
        Ok(v) => s == Ok::<(SpecVal, Machine), SpecVmError>((v@, m)),
        Err(Error::Vm(e)) => s == Err::<(SpecVal, Machine), SpecVmError>(e@),
        Err(_) => false,
    }
}

// ---------------------------------------------------------------------------
// The virtual machine

/// The default budget: in practice, no limit.
pub const DEFAULT_FUEL: u64 = 0xffff_ffff_ffff_ffff;

/// A tree-walking evaluator of programs, with its scopes and its budget of work.
pub struct VM<'a> {
    env: Env<'a>,
    fuel: u64,
}

fn is_println(s: &String) -> (b: bool)
    ensures
        b == (s@ == println_name()),
{
    let p = "println!".to_owned();
    proof {
        reveal_strlit("println!");
        assert(p@ =~= println_name());
    }
    *s == p
}

proof fn lemma_vals_push(v: Seq<Val>, x: Val)
    ensures
        v.push(x).map_values(|y: Val| y@) == v.map_values(|y: Val| y@).push(x@),
{
    assert(v.push(x).map_values(|y: Val| y@) =~= v.map_values(|y: Val| y@).push(x@));
}

impl<'a> VM<'a> {
    /// The scopes, as mathematics.
    pub closed spec fn machine(&self) -> Machine {
        self.env.machine()
    }

    /// The budget of work for each evaluation.
    pub closed spec fn fuel(&self) -> nat {
        self.fuel as nat
    }

    /// There is an innermost scope of each kind.
    pub closed spec fn wf(&self) -> bool {
        self.env.wf()
    }

    /// What the programs run on this machine printed.
    pub fn stdout(&self) -> (s: &String)
        ensures
            s@ == self.machine().out,
    {
        &self.env.out
    }

    /// A machine with one empty scope of each kind and no practical limit on work.
    pub fn new() -> (vm: Self)
        ensures
            vm.wf(),
            vm.machine() == initial_machine(),
            vm.fuel() == DEFAULT_FUEL,
    {
        VM { env: Env::new(), fuel: DEFAULT_FUEL }
    }

    /// A machine with one empty scope of each kind and the budget `fuel`.
    pub fn with_fuel(fuel: u64) -> (vm: Self)
        ensures
            vm.wf(),
            vm.machine() == initial_machine(),
            vm.fuel() == fuel,
    {
        VM { env: Env::new(), fuel }
    }

    /// Evaluates an expression.
    pub fn eval_expr(&mut self, expr: &'a Expr) -> (r: Result<Val, Error>)
        requires
            old(self).wf(),
        ensures
            final(self).wf(),
            final(self).fuel() == old(self).fuel(),
            r is Ok ==> final(self).machine().values.len() == old(self).machine().values.len()
                && final(self).machine().functions.len() == old(self).machine().functions.len(),
            outcome(r, eval_expr_spec(old(self).fuel(), old(self).machine(), expr@), final(self).machine()),
        decreases old(self).fuel(), expr, 2nat,
    {
        match &expr.node {
            ExprKind::Ident(id) => match self.env.lookup_value(id.as_str()) {
                Some(v) => Ok(v),
                None => Err(Error::Vm(VmError::NoValFound(id.clone()))),
            },
            ExprKind::Lit(l) => Ok(Val::Lit(l.copy())),
            ExprKind::BinOp(op, l, r) => {
                let lv = match self.eval_expr(l) {
                    Ok(v) => v,
                    Err(e) => return Err(e),
                };
                let rv = match self.eval_expr(r) {
                    Ok(v) => v,
                    Err(e) => return Err(e),
                };
                op.eval(lv, rv)
            },
            ExprKind::Par(inner) => self.eval_expr(inner),
            ExprKind::Call(name, args) => self.eval_expr_call(name, args),
            ExprKind::IfThenElse(_, _, _) => self.eval_expr_if_then_else(expr),
            ExprKind::Block(b) => self.eval_block(b),
            ExprKind::UnOp(op, x) => {
                let v = match self.eval_expr(x) {
                    Ok(v) => v,
                    Err(e) => return Err(e),
                };
                op.eval(v)
            },
        }
    }

    /// Evaluates a call of `ident` with `args`.
    pub fn eval_expr_call(&mut self, ident: &String, args: &'a Arguments) -> (r: Result<Val, Error>)
        requires
            old(self).wf(),
        ensures
            final(self).wf(),
            final(self).fuel() == old(self).fuel(),
            r is Ok ==> final(self).machine().values.len() == old(self).machine().values.len()
                && final(self).machine().functions.len() == old(self).machine().functions.len(),
            outcome(r, call_spec(old(self).fuel(), old(self).machine(), ident@, args@), final(self).machine()),
            call_fails_before_callee(old(self).fuel(), old(self).machine(), ident@, args@) ==> (eval_args_spec(
                old(self).fuel(),
                old(self).machine(),
                args@,
                0,
                seq![],
            ) matches Ok((_, m1)) && final(self).machine() == m1),
        decreases old(self).fuel(), args, 1nat,
    {
        let ghost fuel = self.fuel();
        let ghost m0 = self.machine();
        let mut vals: Vec<Val> = Vec::new();
        assert(vals@.map_values(|v: Val| v@) =~= seq![]);
        let n = args.0.len();
        let mut i: usize = 0;
        while i < n
            invariant
                n == args.0@.len(),
                i <= n,
                self.wf(),
                self.fuel == old(self).fuel,
                fuel == self.fuel(),
                fuel == old(self).fuel(),
                m0 == old(self).machine(),
                self.machine().values.len() == m0.values.len(),
                self.machine().functions.len() == m0.functions.len(),
                args@ == crate::ast::exprs_view(args.0@),
                eval_args_spec(fuel, m0, args@, 0, seq![]) == eval_args_spec(
                    fuel,
                    self.machine(),
                    args@,
                    i as int,
                    vals@.map_values(|v: Val| v@),
                ),
            decreases n - i,
        {
            assert(args@[i as int] == args.0@[i as int]@);
            let v = match self.eval_expr(&args.0[i]) {
                Ok(v) => v,
                Err(e) => {
                    return Err(e);
                },
            };
            proof {
                lemma_vals_push(vals@, v);
            }
            vals.push(v);
            i = i + 1;
        }
        let ghost m1 = self.machine();
        let ghost svals = vals@.map_values(|v: Val| v@);
        assert(eval_args_spec(fuel, m0, args@, 0, seq![]) == Ok::<(Seq<SpecVal>, Machine), SpecVmError>((svals, m1)));
        if is_println(ident) {
            let text = println_values(&vals);
            self.env.print(&text);
            return Ok(Val::Lit(Literal::Unit));
        }
        let (idx, f) = match self.env.lookup_fn(ident.as_str()) {
            Some(found) => found,
            None => return Err(Error::Vm(VmError::NoFunctionFound(ident.clone()))),
        };
        let np = f.parameters.0.len();
        if np != vals.len() {
            return Err(Error::Vm(VmError::ParameterArityMismatch { id: ident.clone(), expected: np, got: vals.len() }));
        }
        if self.fuel == 0 {
            return Err(Error::Vm(VmError::OutOfFuel));
        }
        let mut frame: StringHashMap<Val> = StringHashMap::new();
        let mut k: usize = 0;
        while k < np
            invariant
                np == f.parameters.0@.len(),
                np == vals@.len(),
                k <= np,
                svals == vals@.map_values(|v: Val| v@),
                f.parameters@ == f.parameters.0@.map_values(|p: crate::ast::Parameter| p@),
                crate::env::scope_view(frame) == bind_params(f.parameters@, svals, k as int),
            decreases np - k,
        {
            let p = &f.parameters.0[k];
            let v = vals[k].copy();
            let st = if p.mutable.0 {
                Val::Mut(Box::new(v))
            } else {
                v
            };
            let ghost before = frame;
            frame.insert(p.id.clone(), st);
            proof {
                assert(crate::env::scope_view(frame) =~= crate::env::scope_view(before).insert(p.id@, st@));
            }
            k = k + 1;
        }
        let nf = self.env.functions.len();
        assert(idx < nf);
        let mut hidden = self.env.functions.split_off(idx + 1);
        self.env.values.push(frame);
        proof {
            assert(self.machine().values =~= m1.values.push(bind_params(f.parameters@, svals, svals.len() as int)));
            assert(self.machine().functions =~= m1.functions.subrange(0, idx + 1));
        }
        let saved = self.fuel;
        self.fuel = saved - 1;
        let res = self.eval_block(&f.body);
        self.fuel = saved;
        let v = match res {
            Ok(v) => v,
            Err(e) => return Err(e),
        };
        let ghost m2 = self.machine();
        self.env.values.pop();
        let ghost hidden_view = hidden@.map_values(|m: StringHashMap<&'a FnDeclaration>| crate::env::fn_scope_view(m));
        self.env.functions.append(&mut hidden);
        proof {
            assert(hidden_view =~= m1.functions.subrange(idx + 1, m1.functions.len() as int));
            assert(self.machine().values =~= pop_top(m2.values));
            assert(self.machine().functions =~= m2.functions + hidden_view);
        }
        Ok(v)
    }

    /// Evaluates an `if` expression.
    fn eval_expr_if_then_else(&mut self, expr: &'a Expr) -> (r: Result<Val, Error>)
        requires
            old(self).wf(),
            expr.node is IfThenElse,
        ensures
            final(self).wf(),
            final(self).fuel() == old(self).fuel(),
            r is Ok ==> final(self).machine().values.len() == old(self).machine().values.len()
                && final(self).machine().functions.len() == old(self).machine().functions.len(),
            outcome(r, eval_expr_spec(old(self).fuel(), old(self).machine(), expr@), final(self).machine()),
        decreases old(self).fuel(), expr, 1nat,
    {
        match &expr.node {
            ExprKind::IfThenElse(cond, then_block, else_block) => {
                let c = match self.eval_expr(cond) {
                    Ok(v) => v,
                    Err(e) => return Err(e),
                };
                let b = match c.get_bool() {
                    Ok(b) => b,
                    Err(e) => return Err(e),
                };
                if b {
                    self.eval_block(then_block)
                } else {
                    match else_block {
                        Some(eb) => self.eval_block(eb),
                        None => Ok(Val::Lit(Literal::Unit)),
                    }
                }
            },
            _ => Ok(Val::Lit(Literal::Unit)),
        }
    }

    /// Evaluates an expression and checks its value against `ty` where it is given.
    pub fn eval_type(&mut self, expr: &'a Expr, ty: &Option<Type>) -> (r: Result<Val, Error>)
        requires
            old(self).wf(),
        ensures
            final(self).wf(),
            final(self).fuel() == old(self).fuel(),
            r is Ok ==> final(self).machine().values.len() == old(self).machine().values.len()
                && final(self).machine().functions.len() == old(self).machine().functions.len(),
            outcome(r, eval_type_spec(old(self).fuel(), old(self).machine(), expr@, *ty), final(self).machine()),
            eval_expr_spec(old(self).fuel(), old(self).machine(), expr@) matches Ok((_, m1)) ==> final(self).machine()
                == m1,
    {
        let val = match self.eval_expr(expr) {
            Ok(v) => v,
            Err(e) => return Err(e),
        };
        match ty {
            Some(t) => match val.check_type(t) {
                Ok(()) => Ok(val),
                Err(e) => Err(e),
            },
            None => Ok(val),
        }
    }

    /// Runs a statement; its value is that of an expression statement, unit otherwise.
    pub fn eval_stmt(&mut self, stmt: &'a Statement) -> (r: Result<Val, Error>)
        requires
            old(self).wf(),
        ensures
            final(self).wf(),
            final(self).fuel() == old(self).fuel(),
            r is Ok ==> final(self).machine().values.len() == old(self).machine().values.len()
                && final(self).machine().functions.len() == old(self).machine().functions.len(),
            outcome(r, eval_stmt_spec(old(self).fuel(), old(self).machine(), stmt@), final(self).machine()),
        decreases old(self).fuel(), stmt, 2nat,
    {
        match &stmt.node {
            StatementKind::Let(mutable, id, ty, init) => self.eval_stmt_let(mutable, id.as_str(), ty, init),
            StatementKind::Assign(lhs, rhs) => self.eval_stmt_assign(lhs, rhs),
            StatementKind::While(_, _) => self.eval_stmt_while(stmt),
            StatementKind::Expr(e) => self.eval_expr(e),
            StatementKind::Fn(f) => self.eval_stmt_fn(f),
        }
    }

    /// Runs `let`: binds `id` in the innermost scope.
    pub fn eval_stmt_let(&mut self, mutable: &Mutable, id: &str, ty: &Option<TypeExpr>, expr: &'a Option<Expr>) -> (r: Result<Val, Error>)
        requires
            old(self).wf(),
        ensures
            final(self).wf(),
            final(self).fuel() == old(self).fuel(),
            r is Ok ==> final(self).machine().values.len() == old(self).machine().values.len()
                && final(self).machine().functions.len() == old(self).machine().functions.len(),
            outcome(
                r,
                let_spec(old(self).fuel(), old(self).machine(), mutable.0, id@, opt_expr_view(*expr)),
                final(self).machine(),
            ),
        decreases old(self).fuel(), expr, 0nat,
    {
        let ghost m0 = self.machine();
        let val = match expr {
            Some(e) => match self.eval_expr(e) {
                Ok(v) => v,
                Err(err) => return Err(err),
            },
            None => Val::UnInit,
        };
        let ghost m1 = self.machine();
        let ghost vv = val@;
        let st = if mutable.0 {
            Val::Mut(Box::new(val))
        } else {
            val
        };
        assert(st@ == stored(mutable.0, vv));
        self.env.define_value(id, st);
        assert(self.machine() == (Machine {
            values: define_top(m1.values, id@, stored(mutable.0, vv)),
            functions: m1.functions,
            out: m1.out,
        }));
        Ok(Val::Lit(Literal::Unit))
    }

    /// Runs an assignment.
    pub fn eval_stmt_assign(&mut self, lhs: &Expr, rhs: &'a Expr) -> (r: Result<Val, Error>)
        requires
            old(self).wf(),
        ensures
            final(self).wf(),
            final(self).fuel() == old(self).fuel(),
            r is Ok ==> final(self).machine().values.len() == old(self).machine().values.len()
                && final(self).machine().functions.len() == old(self).machine().functions.len(),
            outcome(r, assign_spec(old(self).fuel(), old(self).machine(), lhs@, rhs@), final(self).machine()),
            assign_target_missing(old(self).fuel(), old(self).machine(), lhs@, rhs@) ==> (eval_expr_spec(
                old(self).fuel(),
                old(self).machine(),
                rhs@,
            ) matches Ok((_, m1)) && final(self).machine() == m1),
        decreases old(self).fuel(), rhs, 3nat,
    {
        let rhs_val = match self.eval_expr(rhs) {
            Ok(v) => v,
            Err(e) => return Err(e),
        };
        match &lhs.node {
            ExprKind::Ident(id) => if self.env.assign_value(id.as_str(), rhs_val) {
                Ok(Val::Lit(Literal::Unit))
            } else {
                Err(Error::Vm(VmError::NoValFound(id.clone())))
            },
            _ => Err(Error::Vm(VmError::IllegalAssignment(lhs.to_string()))),
        }
    }

    /// Runs a block in new scopes.
    pub fn eval_block(&mut self, block: &'a Block) -> (r: Result<Val, Error>)
        requires
            old(self).wf(),
        ensures
            final(self).wf(),
            final(self).fuel() == old(self).fuel(),
            r is Ok ==> final(self).machine().values.len() == old(self).machine().values.len()
                && final(self).machine().functions.len() == old(self).machine().functions.len(),
            outcome(r, eval_block_spec(old(self).fuel(), old(self).machine(), block@), final(self).machine()),
        decreases old(self).fuel(), block, 1nat,
    {
        let ghost fuel = self.fuel();
        let ghost m0 = self.machine();
        let ghost stmts = block@.statements;
        self.env.push_scope();
        proof {
            assert(hoist(stmts, 0) =~= Map::empty());
        }
        let n = block.statements.len();
        let mut i: usize = 0;
        while i < n
            invariant
                n == block.statements@.len(),
                i <= n,
                self.wf(),
                self.fuel == old(self).fuel,
                m0 == old(self).machine(),
                stmts == crate::ast::stmts_view(block.statements@),
                self.machine() == (Machine {
                    values: m0.values.push(Map::empty()),
                    functions: m0.functions.push(hoist(stmts, i as int)),
                    out: m0.out,
                }),
            decreases n - i,
        {
            match &block.statements[i].node {
                StatementKind::Fn(f) => {
                    self.env.define_fn(f);
                    proof {
                        assert(self.machine().functions =~= m0.functions.push(hoist(stmts, i + 1)));
                    }
                },
                _ => {},
            }
            i = i + 1;
        }
        let ghost m1 = self.machine();
        let mut last = Val::Lit(Literal::Unit);
        let mut i: usize = 0;
        while i < n
            invariant
                n == block.statements@.len(),
                i <= n,
                self.wf(),
                self.fuel == old(self).fuel,
                fuel == self.fuel(),
                fuel == old(self).fuel(),
                m0 == old(self).machine(),
                m1 == (Machine {
                    values: m0.values.push(Map::empty()),
                    functions: m0.functions.push(hoist(stmts, stmts.len() as int)),
                    out: m0.out,
                }),
                stmts == block@.statements,
                self.machine().values.len() == m0.values.len() + 1,
                self.machine().functions.len() == m0.functions.len() + 1,
                stmts == crate::ast::stmts_view(block.statements@),
                eval_stmts_spec(fuel, m1, stmts, 0, unit()) == eval_stmts_spec(fuel, self.machine(), stmts, i as int, last@),
            decreases n - i,
        {
            assert(stmts[i as int] == block.statements@[i as int]@);
            last = match self.eval_stmt(&block.statements[i]) {
                Ok(v) => v,
                Err(e) => return Err(e),
            };
            i = i + 1;
        }
        self.env.pop_scope();
        if block.semi {
            Ok(Val::Lit(Literal::Unit))
        } else {
            Ok(last)
        }
    }

    /// Runs a function declaration: the function joins the innermost scope.
    fn eval_stmt_fn(&mut self, fn_declaration: &'a FnDeclaration) -> (r: Result<Val, Error>)
        requires
            old(self).wf(),
        ensures
            final(self).wf(),
            final(self).fuel() == old(self).fuel(),
            r matches Ok(v) && v@ == unit(),
            final(self).machine() == (Machine {
                values: old(self).machine().values,
                functions: define_top(old(self).machine().functions, fn_declaration.id@, fn_view(*fn_declaration)),
                out: old(self).machine().out,
            }),
    {
        self.env.define_fn(fn_declaration);
        Ok(Val::Lit(Literal::Unit))
    }

    /// Runs a `while` statement.
    fn eval_stmt_while(&mut self, stmt: &'a Statement) -> (r: Result<Val, Error>)
        requires
            old(self).wf(),
            stmt.node is While,
        ensures
            final(self).wf(),
            final(self).fuel() == old(self).fuel(),
            r is Ok ==> final(self).machine().values.len() == old(self).machine().values.len()
                && final(self).machine().functions.len() == old(self).machine().functions.len(),
            outcome(r, eval_while_spec(old(self).fuel(), old(self).machine(), stmt@), final(self).machine()),
        decreases old(self).fuel(), stmt, 1nat,
    {
        let (cond, block) = match &stmt.node {
            StatementKind::While(c, b) => (c, b),
            _ => return Ok(Val::Lit(Literal::Unit)),
        };
        let ghost m0 = self.machine();
        let saved = self.fuel;
        loop
            invariant
                self.wf(),
                self.fuel <= saved,
                saved == old(self).fuel,
                stmt.node == StatementKind::While(*cond, *block),
                m0 == old(self).machine(),
                self.machine().values.len() == m0.values.len(),
                self.machine().functions.len() == m0.functions.len(),
                eval_while_spec(saved as nat, m0, stmt@) == eval_while_spec(self.fuel(), self.machine(), stmt@),
            decreases self.fuel,
        {
            let c = match self.eval_expr(cond) {
                Ok(v) => v,
                Err(e) => {
                    self.fuel = saved;
                    return Err(e);
                },
            };
            let b = match c.get_bool() {
                Ok(b) => b,
                Err(e) => {
                    self.fuel = saved;
                    return Err(e);
                },
            };
            if !b {
                self.fuel = saved;
                return Ok(Val::Lit(Literal::Unit));
            }
            if self.fuel == 0 {
                self.fuel = saved;
                return Err(Error::Vm(VmError::OutOfFuel));
            }
            match self.eval_block(block) {
                Ok(_) => {},
                Err(e) => {
                    self.fuel = saved;
                    return Err(e);
                },
            }
            self.fuel = self.fuel - 1;
        }
    }

    /// Runs a program: its functions join the innermost scope, then `main` runs.
    pub fn eval_prog(&mut self, prog: &'a Prog) -> (r: Result<Val, Error>)
        requires
            old(self).wf(),
        ensures
            final(self).wf(),
            final(self).fuel() == old(self).fuel(),
            r is Ok ==> final(self).machine().values.len() == old(self).machine().values.len()
                && final(self).machine().functions.len() == old(self).machine().functions.len(),
            outcome(r, eval_prog_spec(old(self).fuel(), old(self).machine(), prog@), final(self).machine()),
    {
        let ghost m0 = self.machine();
        let ghost top = (m0.functions.len() - 1) as int;
        let n = prog.0.len();
        let mut i: usize = 0;
        proof {
            assert(m0.functions =~= m0.functions.update(top, insert_fns(m0.functions.last(), prog@, 0)));
        }
        while i < n
            invariant
                n == prog@.len(),
                n == prog.0@.len(),
                i <= n,
                self.wf(),
                self.fuel == old(self).fuel,
                top == m0.functions.len() - 1,
                m0.functions.len() >= 1,
                m0 == old(self).machine(),
                prog@ == prog.0@.map_values(|f: FnDeclaration| fn_view(f)),
                self.machine() == (Machine {
                    values: m0.values,
                    functions: m0.functions.update(top, insert_fns(m0.functions.last(), prog@, i as int)),
                    out: m0.out,
                }),
            decreases n - i,
        {
            self.env.define_fn(&prog.0[i]);
            proof {
                assert(self.machine().functions =~= m0.functions.update(top, insert_fns(m0.functions.last(), prog@, i + 1)));
            }
            i = i + 1;
        }
        proof {
            reveal_strlit("main");
            assert("main"@ =~= main_name());
        }
        let main_fn = match self.env.lookup_fn("main") {
            Some((_, f)) => f,
            None => return Err(Error::Vm(VmError::NoMainFound)),
        };
        self.eval_block(&main_fn.body)
    }
}


impl From<Literal> for Val {
    fn from(lit: Literal) -> (r: Val)
        ensures
            r == Val::Lit(lit),
    {
        Val::Lit(lit)
    }
}

impl vstd::std_specs::convert::FromSpecImpl<Literal> for Val {
    open spec fn obeys_from_spec() -> bool {
        true
    }

    open spec fn from_spec(lit: Literal) -> Val {
        Val::Lit(lit)
    }
}

impl From<String> for Val {
    fn from(s: String) -> (r: Val)
        ensures
            r == Val::Lit(Literal::String(s)),
    {
        Val::Lit(Literal::String(s))
    }
}

impl vstd::std_specs::convert::FromSpecImpl<String> for Val {
    open spec fn obeys_from_spec() -> bool {
        true
    }

    open spec fn from_spec(s: String) -> Val {
        Val::Lit(Literal::String(s))
    }
}

impl From<i32> for Val {
    fn from(i: i32) -> (r: Val)
        ensures
            r == Val::Lit(Literal::Int(i)),
    {
        Val::Lit(Literal::Int(i))
    }
}

impl vstd::std_specs::convert::FromSpecImpl<i32> for Val {
    open spec fn obeys_from_spec() -> bool {
        true
    }

    open spec fn from_spec(i: i32) -> Val {
        Val::Lit(Literal::Int(i))
    }
}

impl From<bool> for Val {
    fn from(b: bool) -> (r: Val)
        ensures
            r == Val::Lit(Literal::Bool(b)),
    {
        Val::Lit(Literal::Bool(b))
    }
}

impl vstd::std_specs::convert::FromSpecImpl<bool> for Val {
    open spec fn obeys_from_spec() -> bool {
        true
    }

    open spec fn from_spec(b: bool) -> Val {
        Val::Lit(Literal::Bool(b))
    }
}

impl From<()> for Val {
    fn from(u: ()) -> (r: Val)
        ensures
            r == Val::Lit(Literal::Unit),
    {
        Val::Lit(Literal::Unit)
    }
}

impl vstd::std_specs::convert::FromSpecImpl<()> for Val {
    open spec fn obeys_from_spec() -> bool {
        true
    }

    open spec fn from_spec(u: ()) -> Val {
        Val::Lit(Literal::Unit)
    }
}

} // verus!
