use vstd::prelude::*;
use crate::ast::{
    Block, Expr, ExprKind, FnDeclaration, Literal, Parameters, Prog, SpecBlock, SpecExpr, SpecExprKind, SpecFnDecl,
    SpecLiteral, SpecParam, SpecStatement, SpecStmtKind, Statement, StatementKind, fn_view,
};
use crate::display::{binop_text, param_text};
use crate::text::{int_text, nat_text, push_i32, push_nat, push_str, push_string};

verus! {

// ---------------------------------------------------------------------------
// The graph, as mathematics

/// The nodes and edges emitted so far, and the number of the next node.
pub struct DotState {
    pub counter: u64,
    pub nodes: Seq<Seq<char>>,
    pub edges: Seq<Seq<char>>,
}

pub open spec fn node_line(id: u64, label: Seq<char>) -> Seq<char> {
    "n"@ + nat_text(id as nat) + " [label=\""@ + label + "\"];"@
}

pub open spec fn edge_line(from: u64, to: u64) -> Seq<char> {
    "n"@ + nat_text(from as nat) + " -> n"@ + nat_text(to as nat) + ";"@
}

/// The state after a node was numbered: the counter moves on (it stays at its
/// largest value rather than wrap).
pub open spec fn bump(st: DotState) -> DotState {
    DotState { counter: if st.counter < u64::MAX { (st.counter + 1) as u64 } else { st.counter }, nodes: st.nodes, edges: st.edges }
}

pub open spec fn with_node(st: DotState, id: u64, label: Seq<char>) -> DotState {
    DotState { counter: st.counter, nodes: st.nodes.push(node_line(id, label)), edges: st.edges }
}

pub open spec fn with_edge(st: DotState, from: u64, to: u64) -> DotState {
    DotState { counter: st.counter, nodes: st.nodes, edges: st.edges.push(edge_line(from, to)) }
}

/// Lines, each indented by two spaces and ended by a line break.
pub open spec fn lines_text(ls: Seq<Seq<char>>, k: int) -> Seq<char>
    decreases k,
{
    if k <= 0 {
        seq![]
    } else {
        lines_text(ls, k - 1) + "  "@ + ls[k - 1] + "\n"@
    }
}

/// The DOT text of the graph.
pub open spec fn finish_text(st: DotState) -> Seq<char> {
    "digraph AST {\n"@ + lines_text(st.nodes, st.nodes.len() as int) + lines_text(st.edges, st.edges.len() as int) + "}"@
}

pub open spec fn visit_prog_spec(st: DotState, fs: Seq<SpecFnDecl>) -> (u64, DotState) {
    let id = st.counter;
    let st1 = with_node(bump(st), id, "Prog"@);
    (id, visit_fns_spec(st1, id, fs, fs.len() as int))
}

/// The first `k` functions visited, each joined to `parent`.
pub open spec fn visit_fns_spec(st: DotState, parent: u64, fs: Seq<SpecFnDecl>, k: int) -> DotState
    decreases k,
{
    if k <= 0 {
        st
    } else {
        let st1 = visit_fns_spec(st, parent, fs, k - 1);
        let c = visit_fn_spec(st1, fs[k - 1]);
        with_edge(c.1, parent, c.0)
    }
}

pub open spec fn visit_fn_spec(st: DotState, f: SpecFnDecl) -> (u64, DotState) {
    let id = st.counter;
    let st1 = with_node(bump(st), id, "fn "@ + f.id);
    let b = visit_block_spec(st1, f.body);
    (id, with_edge(b.1, id, b.0))
}

pub open spec fn visit_params_spec(st: DotState, ps: Seq<SpecParam>) -> (u64, DotState) {
    let id = st.counter;
    let st1 = with_node(bump(st), id, "Parameters"@);
    (id, visit_param_list(st1, id, ps, ps.len() as int))
}

/// The first `k` parameters, each a leaf joined to `parent`.
pub open spec fn visit_param_list(st: DotState, parent: u64, ps: Seq<SpecParam>, k: int) -> DotState
    decreases k,
{
    if k <= 0 {
        st
    } else {
        let st1 = visit_param_list(st, parent, ps, k - 1);
        let pid = st1.counter;
        with_edge(with_node(bump(st1), pid, param_text(ps[k - 1])), parent, pid)
    }
}

pub open spec fn visit_block_spec(st: DotState, b: SpecBlock) -> (u64, DotState)
    decreases b, 2int,
{
    let id = st.counter;
    let st1 = with_node(bump(st), id, "Block"@);
    (id, visit_stmts_spec(st1, id, b.statements, b.statements.len() as int))
}

/// The first `k` statements visited, each joined to `parent`.
pub open spec fn visit_stmts_spec(st: DotState, parent: u64, ss: Seq<SpecStatement>, k: int) -> DotState
    decreases ss, k,
{
    if k <= 0 || k > ss.len() {
        st
    } else {
        let st1 = visit_stmts_spec(st, parent, ss, k - 1);
        let c = visit_stmt_spec(st1, ss[k - 1]);
        with_edge(c.1, parent, c.0)
    }
}

/// A statement: `let` with its initial value, an expression statement with its
/// expression; every other statement is a leaf.
pub open spec fn visit_stmt_spec(st: DotState, s: SpecStatement) -> (u64, DotState)
    decreases s, 2int,
{
    let id = st.counter;
    let st0 = bump(st);
    match s.node {
        SpecStmtKind::Let(_, name, _, init) => {
            let st1 = with_node(st0, id, "let "@ + name);
            match init {
                Some(e) => {
                    let c = visit_expr_spec(st1, e);
                    (id, with_edge(c.1, id, c.0))
                },
                None => (id, st1),
            }
        },
        SpecStmtKind::Expr(e) => {
            let st1 = with_node(st0, id, "Expr"@);
            let c = visit_expr_spec(st1, e);
            (id, with_edge(c.1, id, c.0))
        },
        _ => (id, with_node(st0, id, "stmt"@)),
    }
}

/// An expression: names and integers are leaves with their text, a binary operation
/// is its operator with its two operands; every other expression is a leaf.
pub open spec fn visit_expr_spec(st: DotState, e: SpecExpr) -> (u64, DotState)
    decreases e,
{
    let id = st.counter;
    let st0 = bump(st);
    match e.node {
        SpecExprKind::Ident(name) => (id, with_node(st0, id, name)),
        SpecExprKind::Lit(SpecLiteral::Int(i)) => (id, with_node(st0, id, int_text(i as int))),
        SpecExprKind::BinOp(op, l, r) => {
            let st1 = with_node(st0, id, binop_text(op));
            let a = visit_expr_spec(st1, *l);
            let b = visit_expr_spec(a.1, *r);
            (id, with_edge(with_edge(b.1, id, a.0), id, b.0))
        },
        _ => (id, with_node(st0, id, "Expr"@)),
    }
}

/// The DOT text of a program's tree.
pub open spec fn dot_of_prog(fs: Seq<SpecFnDecl>) -> Seq<char> {
    finish_text(visit_prog_spec(DotState { counter: 0, nodes: seq![], edges: seq![] }, fs).1)
}

// ---------------------------------------------------------------------------
// The generator

pub type NodeId = u64;

struct DotCtx {
    counter: NodeId,
    nodes: Vec<String>,
    edges: Vec<String>,
}

pub open spec fn strings_view(v: Seq<String>) -> Seq<Seq<char>> {
    v.map_values(|s: String| s@)
}

proof fn lemma_strings_push(v: Seq<String>, s: String)
    ensures
        strings_view(v.push(s)) == strings_view(v).push(s@),
{
    assert(strings_view(v.push(s)) =~= strings_view(v).push(s@));
}

impl DotCtx {
    spec fn state(&self) -> DotState {
        DotState { counter: self.counter, nodes: strings_view(self.nodes@), edges: strings_view(self.edges@) }
    }

    fn new() -> (c: DotCtx)
        ensures
            c.state() == (DotState { counter: 0, nodes: seq![], edges: seq![] }),
    {
        let c = DotCtx { counter: 0, nodes: Vec::new(), edges: Vec::new() };
        assert(c.state().nodes =~= seq![]);
        assert(c.state().edges =~= seq![]);
        c
    }

    fn next_id(&mut self) -> (id: NodeId)
        ensures
            id == old(self).state().counter,
            final(self).state() == bump(old(self).state()),
    {
        let id = self.counter;
        self.counter = self.counter.saturating_add(1);
        id
    }

    fn add_node(&mut self, id: NodeId, label: &String)
        ensures
            final(self).state() == with_node(old(self).state(), id, label@),
    {
        let mut line = String::new();
        push_str(&mut line, "n");
        push_nat(&mut line, id);
        push_str(&mut line, " [label=\"");
        push_string(&mut line, label);
        push_str(&mut line, "\"];");
        assert(line@ =~= node_line(id, label@));
        proof {
            lemma_strings_push(self.nodes@, line);
        }
        self.nodes.push(line);
    }

    fn add_edge(&mut self, from: NodeId, to: NodeId)
        ensures
            final(self).state() == with_edge(old(self).state(), from, to),
    {
        let mut line = String::new();
        push_str(&mut line, "n");
        push_nat(&mut line, from);
        push_str(&mut line, " -> n");
        push_nat(&mut line, to);
        push_str(&mut line, ";");
        assert(line@ =~= edge_line(from, to));
        proof {
            lemma_strings_push(self.edges@, line);
        }
        self.edges.push(line);
    }

    fn finish(&self) -> (out: String)
        ensures
            out@ == finish_text(self.state()),
    {
        let ghost st = self.state();
        let mut out = String::new();
        push_str(&mut out, "digraph AST {\n");
        let mut i: usize = 0;
        while i < self.nodes.len()
            invariant
                i <= self.nodes@.len(),
                st == self.state(),
                out@ == "digraph AST {\n"@ + lines_text(st.nodes, i as int),
            decreases self.nodes@.len() - i,
        {
            push_str(&mut out, "  ");
            push_string(&mut out, &self.nodes[i]);
            push_str(&mut out, "\n");
            i = i + 1;
            assert(out@ =~= "digraph AST {\n"@ + lines_text(st.nodes, i as int));
        }
        let mut j: usize = 0;
        while j < self.edges.len()
            invariant
                j <= self.edges@.len(),
                st == self.state(),
                out@ == "digraph AST {\n"@ + lines_text(st.nodes, st.nodes.len() as int) + lines_text(st.edges, j as int),
            decreases self.edges@.len() - j,
        {
            push_str(&mut out, "  ");
            push_string(&mut out, &self.edges[j]);
            push_str(&mut out, "\n");
            j = j + 1;
            assert(out@ =~= "digraph AST {\n"@ + lines_text(st.nodes, st.nodes.len() as int) + lines_text(st.edges, j as int));
        }
        push_str(&mut out, "}");
        assert(out@ =~= finish_text(st));
        out
    }
}

/// Draws the syntax tree of a program in the DOT language.
pub struct DotGenerator {
    ctx: DotCtx,
}

impl DotGenerator {
    pub closed spec fn state(&self) -> DotState {
        self.ctx.state()
    }

    pub fn new() -> (g: DotGenerator)
        ensures
            g.state() == (DotState { counter: 0, nodes: seq![], edges: seq![] }),
    {
        DotGenerator { ctx: DotCtx::new() }
    }

    /// The DOT text of the program's tree, drawn after what this generator drew before.
    pub fn generate(&mut self, prog: &Prog) -> (out: String)
        ensures
            final(self).state() == visit_prog_spec(old(self).state(), prog@).1,
            out@ == finish_text(final(self).state()),
    {
        self.visit_prog(prog);
        self.ctx.finish()
    }

    fn visit_prog(&mut self, prog: &Prog) -> (id: NodeId)
        ensures
            (id, final(self).state()) == visit_prog_spec(old(self).state(), prog@),
    {
        let id = self.ctx.next_id();
        self.ctx.add_node(id, &"Prog".to_owned());
        let n = prog.0.len();
        let mut i: usize = 0;
        while i < n
            invariant
                n == prog.0@.len(),
                i <= n,
                id == old(self).state().counter,
                prog@ == prog.0@.map_values(|f: FnDeclaration| fn_view(f)),
                self.state() == visit_fns_spec(with_node(bump(old(self).state()), id, "Prog"@), id, prog@, i as int),
            decreases n - i,
        {
            let child_id = self.visit_fn(&prog.0[i]);
            self.ctx.add_edge(id, child_id);
            i = i + 1;
        }
        id
    }

    fn visit_fn(&mut self, f: &FnDeclaration) -> (id: NodeId)
        ensures
            (id, final(self).state()) == visit_fn_spec(old(self).state(), f@),
    {
        let id = self.ctx.next_id();
        let mut label = String::new();
        push_str(&mut label, "fn ");
        push_string(&mut label, &f.id);
        self.ctx.add_node(id, &label);
        let body_id = self.visit_block(&f.body);
        self.ctx.add_edge(id, body_id);
        id
    }

    /// Draws a parameter list: a node with one leaf per parameter.
    pub fn visit_parameters(&mut self, parameters: &Parameters) -> (id: NodeId)
        ensures
            (id, final(self).state()) == visit_params_spec(old(self).state(), parameters@),
    {
        let id = self.ctx.next_id();
        self.ctx.add_node(id, &"Parameters".to_owned());
        let n = parameters.0.len();
        let mut i: usize = 0;
        while i < n
            invariant
                n == parameters.0@.len(),
                i <= n,
                id == old(self).state().counter,
                parameters@ == parameters.0@.map_values(|p: crate::ast::Parameter| p@),
                self.state() == visit_param_list(
                    with_node(bump(old(self).state()), id, "Parameters"@),
                    id,
                    parameters@,
                    i as int,
                ),
            decreases n - i,
        {
            let pid = self.ctx.next_id();
            let label = parameters.0[i].to_string();
            self.ctx.add_node(pid, &label);
            self.ctx.add_edge(id, pid);
            i = i + 1;
        }
        id
    }

    fn visit_block(&mut self, block: &Block) -> (id: NodeId)
        ensures
            (id, final(self).state()) == visit_block_spec(old(self).state(), block@),
        decreases block, 2nat,
    {
        let id = self.ctx.next_id();
        self.ctx.add_node(id, &"Block".to_owned());
        let ghost ss = block@.statements;
        let n = block.statements.len();
        let mut i: usize = 0;
        while i < n
            invariant
                n == block.statements@.len(),
                i <= n,
                id == old(self).state().counter,
                ss == crate::ast::stmts_view(block.statements@),
                ss == block@.statements,
                self.state() == visit_stmts_spec(with_node(bump(old(self).state()), id, "Block"@), id, ss, i as int),
            decreases n - i,
        {
            assert(ss[i as int] == block.statements@[i as int]@);
            let child_id = self.visit_stmt(&block.statements[i]);
            self.ctx.add_edge(id, child_id);
            i = i + 1;
        }
        id
    }

    fn visit_stmt(&mut self, stmt: &Statement) -> (id: NodeId)
        ensures
            (id, final(self).state()) == visit_stmt_spec(old(self).state(), stmt@),
        decreases stmt, 2nat,
    {
        let id = self.ctx.next_id();
        match &stmt.node {
            StatementKind::Let(_, name, _, init) => {
                let mut label = String::new();
                push_str(&mut label, "let ");
                push_string(&mut label, name);
                self.ctx.add_node(id, &label);
                match init {
                    Some(e) => {
                        let child = self.visit_expr(e);
                        self.ctx.add_edge(id, child);
                    },
                    None => {},
                }
            },
            StatementKind::Expr(e) => {
                self.ctx.add_node(id, &"Expr".to_owned());
                let child = self.visit_expr(e);
                self.ctx.add_edge(id, child);
            },
            _ => {
                self.ctx.add_node(id, &"stmt".to_owned());
            },
        }
        id
    }

    fn visit_expr(&mut self, expr: &Expr) -> (id: NodeId)
        ensures
            (id, final(self).state()) == visit_expr_spec(old(self).state(), expr@),
        decreases expr,
    {
        let id = self.ctx.next_id();
        match &expr.node {
            ExprKind::Ident(name) => {
                self.ctx.add_node(id, name);
            },
            ExprKind::Lit(Literal::Int(i)) => {
                let mut label = String::new();
                push_i32(&mut label, *i);
                assert(label@ =~= int_text(*i as int));
                self.ctx.add_node(id, &label);
            },
            ExprKind::BinOp(op, lhs, rhs) => {
                let label = op.to_string();
                self.ctx.add_node(id, &label);
                let l = self.visit_expr(lhs);
                let r = self.visit_expr(rhs);
                self.ctx.add_edge(id, l);
                self.ctx.add_edge(id, r);
            },
            _ => {
                self.ctx.add_node(id, &"Expr".to_owned());
            },
        }
        id
    }
}


impl Default for DotGenerator {
    fn default() -> (g: DotGenerator)
        ensures
            g.state() == (DotState { counter: 0, nodes: seq![], edges: seq![] }),
    {
        DotGenerator::new()
    }
}

} // verus!
