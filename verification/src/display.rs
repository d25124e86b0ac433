use vstd::prelude::*;
use crate::ast::{
    Arguments, BinOp, Block, Expr, ExprKind, FnDeclaration, Literal, Mutable, Parameter, Parameters, Prog,
    SpecBlock, SpecExpr, SpecExprKind, SpecFnDecl, SpecLiteral, SpecParam, SpecStatement, SpecStmtKind,
    Statement, StatementKind, Type, UnOp, fn_view,
};
use crate::lexer::push_char;
use crate::text::{int_text, push_i32, push_str, push_string};

verus! {

// ---------------------------------------------------------------------------
// How each part of the syntax tree is written out

pub open spec fn binop_text(op: BinOp) -> Seq<char> {
    match op {
        BinOp::Add => seq!['+'],
        BinOp::Sub => seq!['-'],
        BinOp::Mul => seq!['*'],
        BinOp::Div => seq!['/'],
        BinOp::And => seq!['&', '&'],
        BinOp::Or => seq!['|', '|'],
        BinOp::Eq => seq!['=', '='],
        BinOp::Lt => seq!['<'],
        BinOp::Gt => seq!['>'],
    }
}

pub open spec fn unop_text(op: UnOp) -> Seq<char> {
    match op {
        UnOp::Bang => seq!['!'],
        UnOp::Neg => seq!['-'],
    }
}

pub open spec fn type_text(t: Type) -> Seq<char> {
    match t {
        Type::I32 => seq!['i', '3', '2'],
        Type::Bool => seq!['b', 'o', 'o', 'l'],
        Type::String => seq!['S', 't', 'r', 'i', 'n', 'g'],
        Type::Unit => seq!['(', ')'],
    }
}

pub open spec fn bool_text(b: bool) -> Seq<char> {
    if b { seq!['t', 'r', 'u', 'e'] } else { seq!['f', 'a', 'l', 's', 'e'] }
}

/// A literal as source text: strings in double quotes, unit as `()`.
pub open spec fn literal_text(l: SpecLiteral) -> Seq<char> {
    match l {
        SpecLiteral::Int(i) => int_text(i as int),
        SpecLiteral::Bool(b) => bool_text(b),
        SpecLiteral::String(s) => seq!['"'] + s + seq!['"'],
        SpecLiteral::Unit => seq!['(', ')'],
    }
}

pub open spec fn mutable_text(m: bool) -> Seq<char> {
    if m { seq!['m', 'u', 't', ' '] } else { seq![] }
}

pub open spec fn param_text(p: SpecParam) -> Seq<char> {
    mutable_text(p.mutable) + p.id + seq![':', ' '] + type_text(p.ty.node)
}

/// The first `k` parameters, separated by `, `.
pub open spec fn params_join(ps: Seq<SpecParam>, k: int) -> Seq<char>
    decreases k,
{
    if k <= 0 {
        seq![]
    } else if k == 1 {
        param_text(ps[0])
    } else {
        params_join(ps, k - 1) + seq![',', ' '] + param_text(ps[k - 1])
    }
}

pub open spec fn params_text(ps: Seq<SpecParam>) -> Seq<char> {
    seq!['('] + params_join(ps, ps.len() as int) + seq![')']
}

pub open spec fn expr_text(e: SpecExpr) -> Seq<char>
    decreases e, 1int,
{
    kind_text(e.node)
}

pub open spec fn kind_text(k: SpecExprKind) -> Seq<char>
    decreases k, 0int,
{
    match k {
        SpecExprKind::Ident(i) => i,
        SpecExprKind::Lit(l) => literal_text(l),
        SpecExprKind::BinOp(op, l, r) => expr_text(*l) + seq![' '] + binop_text(op) + seq![' '] + expr_text(*r),
        SpecExprKind::Par(e) => seq!['('] + expr_text(*e) + seq![')'],
        SpecExprKind::Call(i, args) => i + seq!['('] + exprs_join(args, args.len() as int) + seq![')'],
        SpecExprKind::IfThenElse(c, t, e) => match e {
            Some(b) => seq!['i', 'f', ' '] + expr_text(*c) + seq![' '] + block_text(t) + seq![' ', 'e', 'l', 's', 'e', ' ']
                + block_text(b),
            None => seq!['i', 'f', ' '] + expr_text(*c) + seq![' '] + block_text(t),
        },
        SpecExprKind::Block(b) => block_text(b),
        SpecExprKind::UnOp(op, e) => unop_text(op) + expr_text(*e),
    }
}

/// The first `k` expressions, separated by `, `.
pub open spec fn exprs_join(es: Seq<SpecExpr>, k: int) -> Seq<char>
    decreases es, k,
{
    if k <= 0 || k > es.len() {
        seq![]
    } else if k == 1 {
        expr_text(es[0])
    } else {
        exprs_join(es, k - 1) + seq![',', ' '] + expr_text(es[k - 1])
    }
}

/// A block: one statement per line, each indented by a tab.
pub open spec fn block_text(b: SpecBlock) -> Seq<char>
    decreases b, 1int,
{
    seq!['{', '\n', '\t'] + stmts_join(b.statements, b.statements.len() as int)
        + (if b.semi { seq![';'] } else { seq![] }) + seq!['\n', '}']
}

/// The first `k` statements, separated by `;`, a line break and a tab.
pub open spec fn stmts_join(ss: Seq<SpecStatement>, k: int) -> Seq<char>
    decreases ss, k,
{
    if k <= 0 || k > ss.len() {
        seq![]
    } else if k == 1 {
        stmt_text(ss[0])
    } else {
        stmts_join(ss, k - 1) + seq![';', '\n', '\t'] + stmt_text(ss[k - 1])
    }
}

pub open spec fn stmt_text(s: SpecStatement) -> Seq<char>
    decreases s, 0int,
{
    match s.node {
        SpecStmtKind::Let(m, id, ty, init) => seq!['l', 'e', 't', ' '] + mutable_text(m) + id
            + (match ty { Some(t) => seq![':', ' '] + type_text(t.node), None => seq![] })
            + (match init { Some(e) => seq![' ', '=', ' '] + expr_text(e), None => seq![] }),
        SpecStmtKind::Assign(l, r) => expr_text(l) + seq![' ', '=', ' '] + expr_text(r),
        SpecStmtKind::While(c, b) => seq!['w', 'h', 'i', 'l', 'e', ' '] + expr_text(c) + seq![' '] + block_text(b),
        SpecStmtKind::Expr(e) => expr_text(e),
        SpecStmtKind::Fn(f) => fn_text(f),
    }
}

pub open spec fn fn_text(f: SpecFnDecl) -> Seq<char>
    decreases f, 0int,
{
    seq!['f', 'n', ' '] + f.id + params_text(f.params)
        + (match f.ty { Some(t) => seq![' ', '-', '>', ' '] + type_text(t.node), None => seq![] })
        + seq![' '] + block_text(f.body)
}

/// The first `k` function declarations, one per line.
pub open spec fn fns_join(fs: Seq<SpecFnDecl>, k: int) -> Seq<char>
    decreases k,
{
    if k <= 0 {
        seq![]
    } else if k == 1 {
        fn_text(fs[0])
    } else {
        fns_join(fs, k - 1) + seq!['\n'] + fn_text(fs[k - 1])
    }
}

pub open spec fn prog_text(fs: Seq<SpecFnDecl>) -> Seq<char> {
    fns_join(fs, fs.len() as int)
}

// ---------------------------------------------------------------------------
// Writing the text out

fn push_binop(out: &mut String, op: BinOp)
    ensures
        final(out)@ == old(out)@ + binop_text(op),
{
    let s: &str = match op {
        BinOp::Add => "+",
        BinOp::Sub => "-",
        BinOp::Mul => "*",
        BinOp::Div => "/",
        BinOp::And => "&&",
        BinOp::Or => "||",
        BinOp::Eq => "==",
        BinOp::Lt => "<",
        BinOp::Gt => ">",
    };
    proof {
        reveal_strlit("+");
        reveal_strlit("-");
        reveal_strlit("*");
        reveal_strlit("/");
        reveal_strlit("&&");
        reveal_strlit("||");
        reveal_strlit("==");
        reveal_strlit("<");
        reveal_strlit(">");
    }
    push_str(out, s);
    assert(final(out)@ =~= old(out)@ + binop_text(op));
}

fn push_unop(out: &mut String, op: UnOp)
    ensures
        final(out)@ == old(out)@ + unop_text(op),
{
    match op {
        UnOp::Bang => push_char(out, '!'),
        UnOp::Neg => push_char(out, '-'),
    }
    assert(final(out)@ =~= old(out)@ + unop_text(op));
}

fn push_type(out: &mut String, t: Type)
    ensures
        final(out)@ == old(out)@ + type_text(t),
{
    let s: &str = match t {
        Type::I32 => "i32",
        Type::Bool => "bool",
        Type::String => "String",
        Type::Unit => "()",
    };
    proof {
        reveal_strlit("i32");
        reveal_strlit("bool");
        reveal_strlit("String");
        reveal_strlit("()");
    }
    push_str(out, s);
    assert(final(out)@ =~= old(out)@ + type_text(t));
}

fn push_literal(out: &mut String, l: &Literal)
    ensures
        final(out)@ == old(out)@ + literal_text(l@),
{
    match l {
        Literal::Int(i) => push_i32(out, *i),
        Literal::Bool(b) => {
            proof {
                reveal_strlit("true");
                reveal_strlit("false");
            }
            if *b {
                push_str(out, "true");
            } else {
                push_str(out, "false");
            }
        },
        Literal::String(s) => {
            push_char(out, '"');
            push_string(out, s);
            push_char(out, '"');
        },
        Literal::Unit => {
            proof {
                reveal_strlit("()");
            }
            push_str(out, "()");
        },
    }
    assert(final(out)@ =~= old(out)@ + literal_text(l@));
}

fn push_mutable(out: &mut String, m: Mutable)
    ensures
        final(out)@ == old(out)@ + mutable_text(m.0),
{
    if m.0 {
        proof {
            reveal_strlit("mut ");
        }
        push_str(out, "mut ");
    }
    assert(final(out)@ =~= old(out)@ + mutable_text(m.0));
}

fn push_param(out: &mut String, p: &Parameter)
    ensures
        final(out)@ == old(out)@ + param_text(p@),
{
    push_mutable(out, p.mutable);
    push_string(out, &p.id);
    push_char(out, ':');
    push_char(out, ' ');
    push_type(out, p.ty.node);
    assert(final(out)@ =~= old(out)@ + param_text(p@));
}

fn push_params(out: &mut String, ps: &Parameters)
    ensures
        final(out)@ == old(out)@ + params_text(ps@),
{
    let ghost start = out@;
    push_char(out, '(');
    let n = ps.0.len();
    let mut i: usize = 0;
    while i < n
        invariant
            n == ps@.len(),
            i <= n,
            out@ == start + seq!['('] + params_join(ps@, i as int),
        decreases n - i,
    {
        if i > 0 {
            push_char(out, ',');
            push_char(out, ' ');
        }
        push_param(out, &ps.0[i]);
        i = i + 1;
        assert(out@ =~= start + seq!['('] + params_join(ps@, i as int));
    }
    push_char(out, ')');
    assert(final(out)@ =~= old(out)@ + params_text(ps@));
}

fn push_expr(out: &mut String, e: &Expr)
    ensures
        final(out)@ == old(out)@ + expr_text(e@),
    decreases e, 1nat,
{
    push_kind(out, &e.node);
}

fn push_kind(out: &mut String, k: &ExprKind)
    ensures
        final(out)@ == old(out)@ + kind_text(crate::ast::kind_view(*k)),
    decreases k, 0nat,
{
    let ghost start = out@;
    match k {
        ExprKind::Ident(i) => push_string(out, i),
        ExprKind::Lit(l) => push_literal(out, l),
        ExprKind::BinOp(op, l, r) => {
            push_expr(out, l);
            push_char(out, ' ');
            push_binop(out, *op);
            push_char(out, ' ');
            push_expr(out, r);
        },
        ExprKind::Par(e) => {
            push_char(out, '(');
            push_expr(out, e);
            push_char(out, ')');
        },
        ExprKind::Call(i, args) => {
            push_string(out, i);
            push_args(out, args);
        },
        ExprKind::IfThenElse(c, t, e) => {
            proof {
                reveal_strlit("if ");
                reveal_strlit(" else ");
            }
            push_str(out, "if ");
            push_expr(out, c);
            push_char(out, ' ');
            push_block(out, t);
            match e {
                Some(b) => {
                    push_str(out, " else ");
                    push_block(out, b);
                },
                None => {},
            }
        },
        ExprKind::Block(b) => push_block(out, b),
        ExprKind::UnOp(op, e) => {
            push_unop(out, *op);
            push_expr(out, e);
        },
    }
    assert(out@ =~= start + kind_text(crate::ast::kind_view(*k)));
}

fn push_args(out: &mut String, args: &Arguments)
    ensures
        final(out)@ == old(out)@ + seq!['('] + exprs_join(args@, args@.len() as int) + seq![')'],
    decreases args, 0nat,
{
    let ghost start = out@;
    push_char(out, '(');
    let n = args.0.len();
    let mut i: usize = 0;
    while i < n
        invariant
            n == args.0@.len(),
            i <= n,
            args@ == crate::ast::exprs_view(args.0@),
            out@ == start + seq!['('] + exprs_join(args@, i as int),
        decreases n - i,
    {
        if i > 0 {
            push_char(out, ',');
            push_char(out, ' ');
        }
        push_expr(out, &args.0[i]);
        i = i + 1;
        assert(out@ =~= start + seq!['('] + exprs_join(args@, i as int));
    }
    push_char(out, ')');
}

fn push_block(out: &mut String, b: &Block)
    ensures
        final(out)@ == old(out)@ + block_text(b@),
    decreases b, 0nat,
{
    let ghost start = out@;
    push_char(out, '{');
    push_char(out, '\n');
    push_char(out, '\t');
    let n = b.statements.len();
    let mut i: usize = 0;
    while i < n
        invariant
            n == b.statements@.len(),
            i <= n,
            b@.statements == crate::ast::stmts_view(b.statements@),
            out@ == start + seq!['{', '\n', '\t'] + stmts_join(b@.statements, i as int),
        decreases n - i,
    {
        if i > 0 {
            push_char(out, ';');
            push_char(out, '\n');
            push_char(out, '\t');
        }
        push_stmt(out, &b.statements[i]);
        i = i + 1;
        assert(out@ =~= start + seq!['{', '\n', '\t'] + stmts_join(b@.statements, i as int));
    }
    if b.semi {
        push_char(out, ';');
    }
    push_char(out, '\n');
    push_char(out, '}');
    assert(out@ =~= start + block_text(b@));
}

fn push_stmt(out: &mut String, s: &Statement)
    ensures
        final(out)@ == old(out)@ + stmt_text(s@),
    decreases s, 0nat,
{
    let ghost start = out@;
    match &s.node {
        StatementKind::Let(m, id, ty, init) => {
            proof {
                reveal_strlit("let ");
                reveal_strlit(" = ");
            }
            push_str(out, "let ");
            push_mutable(out, *m);
            push_string(out, id);
            match ty {
                Some(t) => {
                    push_char(out, ':');
                    push_char(out, ' ');
                    push_type(out, t.node);
                },
                None => {},
            }
            match init {
                Some(e) => {
                    push_str(out, " = ");
                    push_expr(out, e);
                },
                None => {},
            }
        },
        StatementKind::Assign(l, r) => {
            proof {
                reveal_strlit(" = ");
            }
            push_expr(out, l);
            push_str(out, " = ");
            push_expr(out, r);
        },
        StatementKind::While(c, b) => {
            proof {
                reveal_strlit("while ");
            }
            push_str(out, "while ");
            push_expr(out, c);
            push_char(out, ' ');
            push_block(out, b);
        },
        StatementKind::Expr(e) => push_expr(out, e),
        StatementKind::Fn(f) => push_fn(out, f),
    }
    assert(out@ =~= start + stmt_text(s@));
}

fn push_fn(out: &mut String, f: &FnDeclaration)
    ensures
        final(out)@ == old(out)@ + fn_text(f@),
    decreases f, 0nat,
{
    let ghost start = out@;
    proof {
        reveal_strlit("fn ");
        reveal_strlit(" -> ");
    }
    push_str(out, "fn ");
    push_string(out, &f.id);
    push_params(out, &f.parameters);
    match &f.ty {
        Some(t) => {
            push_str(out, " -> ");
            push_type(out, t.node);
        },
        None => {},
    }
    push_char(out, ' ');
    push_block(out, &f.body);
    assert(out@ =~= start + fn_text(f@));
}

// ---------------------------------------------------------------------------
// The text of each node, as a fresh string

impl BinOp {
    /// The operator as it is written in source text.
    pub fn to_string(&self) -> (s: String)
        ensures
            s@ == binop_text(*self),
    {
        let mut s = String::new();
        push_binop(&mut s, *self);
        assert(s@ =~= binop_text(*self));
        s
    }
}

impl UnOp {
    /// The operator as it is written in source text.
    pub fn to_string(&self) -> (s: String)
        ensures
            s@ == unop_text(*self),
    {
        let mut s = String::new();
        push_unop(&mut s, *self);
        assert(s@ =~= unop_text(*self));
        s
    }
}

impl Type {
    /// The type as it is written in source text.
    pub fn to_string(&self) -> (s: String)
        ensures
            s@ == type_text(*self),
    {
        let mut s = String::new();
        push_type(&mut s, *self);
        assert(s@ =~= type_text(*self));
        s
    }
}

impl Literal {
    /// The literal as source text.
    pub fn to_string(&self) -> (s: String)
        ensures
            s@ == literal_text(self@),
    {
        let mut s = String::new();
        push_literal(&mut s, self);
        assert(s@ =~= literal_text(self@));
        s
    }
}

impl Mutable {
    /// `mut ` for a mutable binding, nothing otherwise.
    pub fn to_string(&self) -> (s: String)
        ensures
            s@ == mutable_text(self.0),
    {
        let mut s = String::new();
        push_mutable(&mut s, *self);
        assert(s@ =~= mutable_text(self.0));
        s
    }
}

impl Parameter {
    /// `[mut ]name: type`.
    pub fn to_string(&self) -> (s: String)
        ensures
            s@ == param_text(self@),
    {
        let mut s = String::new();
        push_param(&mut s, self);
        assert(s@ =~= param_text(self@));
        s
    }
}

impl Parameters {
    /// The parameter list in parentheses, separated by `, `.
    pub fn to_string(&self) -> (s: String)
        ensures
            s@ == params_text(self@),
    {
        let mut s = String::new();
        push_params(&mut s, self);
        assert(s@ =~= params_text(self@));
        s
    }
}

impl Arguments {
    /// The arguments in parentheses, separated by `, `.
    pub fn to_string(&self) -> (s: String)
        ensures
            s@ == seq!['('] + exprs_join(self@, self@.len() as int) + seq![')'],
    {
        let mut s = String::new();
        push_args(&mut s, self);
        assert(s@ =~= seq!['('] + exprs_join(self@, self@.len() as int) + seq![')']);
        s
    }
}

impl Expr {
    /// The expression as source text.
    pub fn to_string(&self) -> (s: String)
        ensures
            s@ == expr_text(self@),
    {
        let mut s = String::new();
        push_expr(&mut s, self);
        assert(s@ =~= expr_text(self@));
        s
    }
}

impl ExprKind {
    /// The expression as source text.
    pub fn to_string(&self) -> (s: String)
        ensures
            s@ == kind_text(crate::ast::kind_view(*self)),
    {
        let mut s = String::new();
        push_kind(&mut s, self);
        assert(s@ =~= kind_text(crate::ast::kind_view(*self)));
        s
    }
}

impl Block {
    /// The block as source text, one statement per line.
    pub fn to_string(&self) -> (s: String)
        ensures
            s@ == block_text(self@),
    {
        let mut s = String::new();
        push_block(&mut s, self);
        assert(s@ =~= block_text(self@));
        s
    }
}

impl Statement {
    /// The statement as source text, without a trailing `;`.
    pub fn to_string(&self) -> (s: String)
        ensures
            s@ == stmt_text(self@),
    {
        let mut s = String::new();
        push_stmt(&mut s, self);
        assert(s@ =~= stmt_text(self@));
        s
    }
}

impl FnDeclaration {
    /// The declaration as source text.
    pub fn to_string(&self) -> (s: String)
        ensures
            s@ == fn_text(self@),
    {
        let mut s = String::new();
        push_fn(&mut s, self);
        assert(s@ =~= fn_text(self@));
        s
    }
}

impl Prog {
    /// The program as source text, one declaration after another.
    pub fn to_string(&self) -> (s: String)
        ensures
            s@ == prog_text(self@),
    {
        let mut s = String::new();
        let n = self.0.len();
        let mut i: usize = 0;
        while i < n
            invariant
                n == self@.len(),
                i <= n,
                self@ == self.0@.map_values(|f: FnDeclaration| fn_view(f)),
                s@ == fns_join(self@, i as int),
            decreases n - i,
        {
            if i > 0 {
                push_char(&mut s, '\n');
            }
            push_fn(&mut s, &self.0[i]);
            i = i + 1;
            assert(s@ =~= fns_join(self@, i as int));
        }
        s
    }
}


/// The label of an expression: `Ident(name)`, `Lit(literal)`, or the name of its kind.
pub open spec fn label_text(k: SpecExprKind) -> Seq<char> {
    match k {
        SpecExprKind::Ident(name) => seq!['I', 'd', 'e', 'n', 't', '('] + name + seq![')'],
        SpecExprKind::Lit(l) => seq!['L', 'i', 't', '('] + literal_text(l) + seq![')'],
        _ => kind_name(k),
    }
}

pub open spec fn kind_name(k: SpecExprKind) -> Seq<char> {
    match k {
        SpecExprKind::Ident(_) => seq!['I', 'd', 'e', 'n', 't'],
        SpecExprKind::Lit(_) => seq!['L', 'i', 't'],
        SpecExprKind::BinOp(_, _, _) => seq!['B', 'i', 'n', 'O', 'p'],
        SpecExprKind::Par(_) => seq!['P', 'a', 'r'],
        SpecExprKind::Call(_, _) => seq!['C', 'a', 'l', 'l'],
        SpecExprKind::IfThenElse(_, _, _) => seq!['I', 'f', 'T', 'h', 'e', 'n', 'E', 'l', 's', 'e'],
        SpecExprKind::Block(_) => seq!['B', 'l', 'o', 'c', 'k'],
        SpecExprKind::UnOp(_, _) => seq!['U', 'n', 'O', 'p'],
    }
}

impl ExprKind {
    /// A short label for the expression, as drawn in a tree of the syntax.
    pub fn label(&self) -> (s: String)
        ensures
            s@ == label_text(crate::ast::kind_view(*self)),
    {
        let mut s = String::new();
        match self {
            ExprKind::Ident(name) => {
                proof {
                    reveal_strlit("Ident(");
                }
                push_str(&mut s, "Ident(");
                push_string(&mut s, name);
                push_char(&mut s, ')');
            },
            ExprKind::Lit(lit) => {
                proof {
                    reveal_strlit("Lit(");
                }
                push_str(&mut s, "Lit(");
                push_literal(&mut s, lit);
                push_char(&mut s, ')');
            },
            _ => {
                let name = self.as_str();
                push_str(&mut s, name);
            },
        }
        assert(s@ =~= label_text(crate::ast::kind_view(*self)));
        s
    }
}

} // verus!
