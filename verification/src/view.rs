use vstd::prelude::*;
use crate::ast::{
    Arguments, Block, Expr, ExprKind, FnDeclaration, Parameter, Parameters, Prog, SpecBlock, SpecExpr, SpecExprKind,
    SpecFnDecl, SpecParam, SpecStatement, SpecStmtKind, Statement, StatementKind, Type, TypeExpr, fn_view,
};
use crate::display::{binop_text, bool_text, literal_text, param_text, type_text, unop_text};
use crate::error::ErrRange;
use crate::text::{push_str, push_string};

verus! {

#[derive(Debug, Clone, Copy, PartialEq, Eq, Structural)]
pub enum AstKind {
    Prog,
    Function,
    Parameters,
    Parameter,
    Block,
    Let,
    Assign,
    While,
    Ident,
    Literal,
    Type,
    BinOp,
    UnOp,
    Call,
    Arguments,
    IfThenElse,
    BlockExpr,
    Par,
    Mutable,
}

/// A node of the syntax tree as it is drawn: its kind, a label, the source range
/// where there is one, and its children.
#[derive(Debug)]
pub struct AstNode {
    pub kind: AstKind,
    pub label: String,
    pub span: Option<ErrRange>,
    pub children: Vec<AstNode>,
}

/// The mathematical counterpart of [`AstNode`].
pub struct SpecAstNode {
    pub kind: AstKind,
    pub label: Seq<char>,
    pub span: Option<ErrRange>,
    pub children: Seq<SpecAstNode>,
}

pub open spec fn node_view(n: AstNode) -> SpecAstNode
    decreases n,
{
    SpecAstNode {
        kind: n.kind,
        label: n.label@,
        span: n.span,
        children: Seq::new(
            n.children@.len(),
            |i: int| if 0 <= i < n.children@.len() { node_view(n.children@[i]) } else { arbitrary() },
        ),
    }
}

impl View for AstNode {
    type V = SpecAstNode;

    open spec fn view(&self) -> SpecAstNode {
        node_view(*self)
    }
}

pub open spec fn nodes_view(v: Seq<AstNode>) -> Seq<SpecAstNode> {
    Seq::new(v.len(), |i: int| if 0 <= i < v.len() { node_view(v[i]) } else { arbitrary() })
}

pub open spec fn leaf_node(kind: AstKind, label: Seq<char>, span: Option<ErrRange>) -> SpecAstNode {
    SpecAstNode { kind, label, span, children: seq![] }
}

// ---------------------------------------------------------------------------
// The tree of each part of the syntax

/// A type, with its range where it is written in the source.
pub open spec fn type_node(t: TypeExpr) -> SpecAstNode {
    leaf_node(AstKind::Type, "Type "@ + type_text(t.node), Some(t.span))
}

pub open spec fn param_node(p: SpecParam) -> SpecAstNode {
    leaf_node(AstKind::Parameter, param_text(p), Some(p.span))
}

pub open spec fn params_node(ps: Seq<SpecParam>, span: Option<ErrRange>) -> SpecAstNode {
    SpecAstNode {
        kind: AstKind::Parameters,
        label: "Parameters"@,
        span,
        children: Seq::new(ps.len(), |i: int| param_node(ps[i])),
    }
}

pub open spec fn prog_node(fs: Seq<SpecFnDecl>) -> SpecAstNode {
    SpecAstNode {
        kind: AstKind::Prog,
        label: "Prog"@,
        span: None,
        children: Seq::new(fs.len(), |i: int| if 0 <= i < fs.len() { fn_node(fs[i]) } else { arbitrary() }),
    }
}

/// A function: its parameters (spanning the declaration), its result type, its body.
pub open spec fn fn_node(f: SpecFnDecl) -> SpecAstNode
    decreases f, 2int,
{
    SpecAstNode {
        kind: AstKind::Function,
        label: "fn "@ + f.id,
        span: Some(f.span),
        children: seq![
            params_node(f.params, None),
            type_node(match f.ty { Some(t) => t, None => TypeExpr { node: Type::Unit, span: ErrRange::spec_dummy() } }),
            block_node(f.body),
        ],
    }
}

pub open spec fn block_node(b: SpecBlock) -> SpecAstNode
    decreases b, 1int,
{
    SpecAstNode {
        kind: AstKind::Block,
        label: if b.semi { "Block (semi)"@ } else { "Block"@ },
        span: None,
        children: Seq::new(
            b.statements.len(),
            |i: int| if 0 <= i < b.statements.len() { stmt_node(b.statements[i]) } else { arbitrary() },
        ),
    }
}

pub open spec fn stmt_node(s: SpecStatement) -> SpecAstNode
    decreases s, 1int,
{
    match s.node {
        SpecStmtKind::Let(m, name, ty, init) => SpecAstNode {
            kind: AstKind::Let,
            label: "Let"@,
            span: Some(s.span),
            children: seq![
                leaf_node(AstKind::Mutable, "Mutable("@ + bool_text(m) + ")"@, None),
                leaf_node(AstKind::Ident, "Ident("@ + name + ")"@, None),
            ] + (match ty {
                Some(t) => seq![type_node(t)],
                None => seq![],
            }) + (match init {
                Some(e) => seq![expr_node(e)],
                None => seq![],
            }),
        },
        SpecStmtKind::Assign(l, r) => SpecAstNode {
            kind: AstKind::Assign,
            label: "Assign"@,
            span: Some(s.span),
            children: seq![expr_node(l), expr_node(r)],
        },
        SpecStmtKind::While(c, b) => SpecAstNode {
            kind: AstKind::While,
            label: "While"@,
            span: Some(s.span),
            children: seq![expr_node(c), block_node(b)],
        },
        SpecStmtKind::Expr(e) => expr_node(e),
        SpecStmtKind::Fn(f) => fn_node(f),
    }
}

/// The arguments of a call, one child each.
pub open spec fn args_node(args: Seq<SpecExpr>) -> SpecAstNode
    decreases args, 1int,
{
    SpecAstNode {
        kind: AstKind::Arguments,
        label: "Args"@,
        span: None,
        children: Seq::new(args.len(), |i: int| if 0 <= i < args.len() { expr_node(args[i]) } else { arbitrary() }),
    }
}

pub open spec fn expr_node(e: SpecExpr) -> SpecAstNode
    decreases e, 0int,
{
    match e.node {
        SpecExprKind::Ident(name) => leaf_node(AstKind::Ident, "Ident("@ + name + ")"@, Some(e.span)),
        SpecExprKind::Lit(l) => leaf_node(AstKind::Literal, "Literal("@ + literal_text(l) + ")"@, Some(e.span)),
        SpecExprKind::BinOp(op, l, r) => SpecAstNode {
            kind: AstKind::BinOp,
            label: "BinOp("@ + binop_text(op) + ")"@,
            span: Some(e.span),
            children: seq![expr_node(*l), expr_node(*r)],
        },
        SpecExprKind::Par(x) => SpecAstNode {
            kind: AstKind::Par,
            label: "Par()"@,
            span: Some(e.span),
            children: seq![expr_node(*x)],
        },
        SpecExprKind::Call(name, args) => SpecAstNode {
            kind: AstKind::Call,
            label: "Call("@ + name + ")"@,
            span: Some(e.span),
            children: seq![args_node(args)],
        },
        SpecExprKind::IfThenElse(c, t, el) => SpecAstNode {
            kind: AstKind::IfThenElse,
            label: "IfThenElse"@,
            span: Some(e.span),
            children: seq![expr_node(*c), block_node(t)] + match el {
                Some(b) => seq![block_node(b)],
                None => seq![],
            },
        },
        SpecExprKind::Block(b) => SpecAstNode {
            kind: AstKind::BlockExpr,
            label: "BlockExpr"@,
            span: Some(e.span),
            children: seq![block_node(b)],
        },
        SpecExprKind::UnOp(op, x) => SpecAstNode {
            kind: AstKind::UnOp,
            label: "UnOp("@ + unop_text(op) + ")"@,
            span: Some(e.span),
            children: seq![expr_node(*x)],
        },
    }
}

// ---------------------------------------------------------------------------
// Building the tree

proof fn lemma_nodes_push(v: Seq<AstNode>, n: AstNode)
    ensures
        nodes_view(v.push(n)) == nodes_view(v).push(n@),
{
    assert(nodes_view(v.push(n)) =~= nodes_view(v).push(n@));
}

fn leaf(kind: AstKind, label: String, span: Option<ErrRange>) -> (n: AstNode)
    ensures
        n@ == leaf_node(kind, label@, span),
{
    let n = AstNode { kind, label, span, children: Vec::new() };
    assert(n@.children =~= seq![]);
    n
}

fn node(kind: AstKind, label: String, span: Option<ErrRange>, children: Vec<AstNode>) -> (n: AstNode)
    ensures
        n@ == (SpecAstNode { kind, label: label@, span, children: nodes_view(children@) }),
{
    let n = AstNode { kind, label, span, children };
    assert(n@.children =~= nodes_view(children@));
    n
}

/// `prefix`, then `middle`, then `)`.
fn wrapped(prefix: &str, middle: &String) -> (s: String)
    ensures
        s@ == prefix@ + middle@ + ")"@,
{
    let mut s = String::new();
    push_str(&mut s, prefix);
    push_string(&mut s, middle);
    push_str(&mut s, ")");
    assert(s@ =~= prefix@ + middle@ + ")"@);
    s
}

impl AstNode {
    pub fn new(kind: AstKind, label: String, span: Option<ErrRange>, children: Vec<AstNode>) -> (n: AstNode)
        ensures
            n.kind == kind,
            n.label == label,
            n.span == span,
            n.children == children,
    {
        AstNode { kind, label, span, children }
    }

    /// The tree of a type.
    pub fn from_type(t: TypeExpr) -> (n: AstNode)
        ensures
            n@ == type_node(t),
    {
        let ts = t.node.to_string();
        let mut label = String::new();
        push_str(&mut label, "Type ");
        push_string(&mut label, &ts);
        leaf(AstKind::Type, label, Some(t.span))
    }

    /// The tree of a parameter: a leaf labelled with its text.
    pub fn from_parameter(p: &Parameter) -> (n: AstNode)
        ensures
            n@ == param_node(p@),
    {
        leaf(AstKind::Parameter, p.to_string(), Some(p.span))
    }

    /// The tree of a parameter list.
    pub fn from_parameters(ps: &Parameters) -> (n: AstNode)
        ensures
            n@ == params_node(ps@, None),
    {
        let mut children: Vec<AstNode> = Vec::new();
        let k = ps.0.len();
        let mut i: usize = 0;
        while i < k
            invariant
                k == ps.0@.len(),
                i <= k,
                ps@ == ps.0@.map_values(|p: Parameter| p@),
                nodes_view(children@) =~= Seq::new(i as nat, |j: int| param_node(ps@[j])),
            decreases k - i,
        {
            let c = AstNode::from_parameter(&ps.0[i]);
            proof {
                lemma_nodes_push(children@, c);
            }
            children.push(c);
            i = i + 1;
        }
        node(AstKind::Parameters, "Parameters".to_owned(), None, children)
    }

    /// The tree of a program.
    pub fn from_prog(prog: &Prog) -> (n: AstNode)
        ensures
            n@ == prog_node(prog@),
    {
        let fs = &prog.0;
        let mut children: Vec<AstNode> = Vec::new();
        let k = fs.len();
        let mut i: usize = 0;
        while i < k
            invariant
                k == fs@.len(),
                i <= k,
                prog@ == fs@.map_values(|f: FnDeclaration| fn_view(f)),
                nodes_view(children@) =~= Seq::new(
                    i as nat,
                    |j: int| if 0 <= j < prog@.len() { fn_node(prog@[j]) } else { arbitrary() },
                ),
            decreases k - i,
        {
            let c = AstNode::from_fn(&fs[i]);
            proof {
                lemma_nodes_push(children@, c);
            }
            children.push(c);
            i = i + 1;
        }
        node(AstKind::Prog, "Prog".to_owned(), None, children)
    }

    /// The tree of a function declaration.
    pub fn from_fn(f: &FnDeclaration) -> (n: AstNode)
        ensures
            n@ == fn_node(f@),
        decreases f, 2nat,
    {
        let mut label = String::new();
        push_str(&mut label, "fn ");
        push_string(&mut label, &f.id);
        let rtype = match f.ty {
            Some(t) => t,
            None => TypeExpr { node: Type::Unit, span: ErrRange::dummy() },
        };
        let mut children: Vec<AstNode> = Vec::new();
        let a = AstNode::from_parameters(&f.parameters);
        let b = AstNode::from_type(rtype);
        let c = AstNode::from_block(&f.body);
        proof {
            lemma_nodes_push(children@, a);
        }
        children.push(a);
        proof {
            lemma_nodes_push(children@, b);
        }
        children.push(b);
        proof {
            lemma_nodes_push(children@, c);
        }
        children.push(c);
        let n = node(AstKind::Function, label, Some(f.span), children);
        assert(n@.children =~= fn_node(f@).children);
        n
    }

    /// The tree of a block: one child per statement.
    pub fn from_block(b: &Block) -> (n: AstNode)
        ensures
            n@ == block_node(b@),
        decreases b, 1nat,
    {
        let mut children: Vec<AstNode> = Vec::new();
        let ghost ss = b@.statements;
        let k = b.statements.len();
        let mut i: usize = 0;
        while i < k
            invariant
                k == b.statements@.len(),
                i <= k,
                ss == crate::ast::stmts_view(b.statements@),
                nodes_view(children@) =~= Seq::new(
                    i as nat,
                    |j: int| if 0 <= j < ss.len() { stmt_node(ss[j]) } else { arbitrary() },
                ),
            decreases k - i,
        {
            let c = AstNode::from_stmt(&b.statements[i]);
            proof {
                lemma_nodes_push(children@, c);
            }
            children.push(c);
            i = i + 1;
        }
        assert(nodes_view(children@) =~= block_node(b@).children);
        let label = if b.semi {
            "Block (semi)".to_owned()
        } else {
            "Block".to_owned()
        };
        node(AstKind::Block, label, None, children)
    }

    /// The tree of a statement.
    pub fn from_stmt(s: &Statement) -> (n: AstNode)
        ensures
            n@ == stmt_node(s@),
        decreases s, 1nat,
    {
        match &s.node {
            StatementKind::Let(m, name, ty, init) => {
                let mut children: Vec<AstNode> = Vec::new();
                let bs: String = if m.0 {
                    "true".to_owned()
                } else {
                    "false".to_owned()
                };
                proof {
                    reveal_strlit("true");
                    reveal_strlit("false");
                    assert(bs@ =~= bool_text(m.0));
                }
                let a = leaf(AstKind::Mutable, wrapped("Mutable(", &bs), None);
                let b = leaf(AstKind::Ident, wrapped("Ident(", name), None);
                proof {
                    lemma_nodes_push(children@, a);
                }
                children.push(a);
                proof {
                    lemma_nodes_push(children@, b);
                }
                children.push(b);
                match ty {
                    Some(t) => {
                        let c = AstNode::from_type(*t);
                        proof {
                            lemma_nodes_push(children@, c);
                        }
                        children.push(c);
                    },
                    None => {},
                }
                match init {
                    Some(e) => {
                        let c = AstNode::from_expr(e);
                        proof {
                            lemma_nodes_push(children@, c);
                        }
                        children.push(c);
                    },
                    None => {},
                }
                let n = node(AstKind::Let, "Let".to_owned(), Some(s.span), children);
                assert(n@.children =~= stmt_node(s@).children);
                n
            },
            StatementKind::Assign(l, r) => {
                let mut children: Vec<AstNode> = Vec::new();
                let a = AstNode::from_expr(l);
                let b = AstNode::from_expr(r);
                proof {
                    lemma_nodes_push(children@, a);
                }
                children.push(a);
                proof {
                    lemma_nodes_push(children@, b);
                }
                children.push(b);
                let n = node(AstKind::Assign, "Assign".to_owned(), Some(s.span), children);
                assert(n@.children =~= stmt_node(s@).children);
                n
            },
            StatementKind::While(c, body) => {
                let mut children: Vec<AstNode> = Vec::new();
                let a = AstNode::from_expr(c);
                let b = AstNode::from_block(body);
                proof {
                    lemma_nodes_push(children@, a);
                }
                children.push(a);
                proof {
                    lemma_nodes_push(children@, b);
                }
                children.push(b);
                let n = node(AstKind::While, "While".to_owned(), Some(s.span), children);
                assert(n@.children =~= stmt_node(s@).children);
                n
            },
            StatementKind::Expr(e) => AstNode::from_expr(e),
            StatementKind::Fn(f) => AstNode::from_fn(f),
        }
    }

    /// The tree of an expression.
    pub fn from_expr(e: &Expr) -> (n: AstNode)
        ensures
            n@ == expr_node(e@),
        decreases e, 0nat,
    {
        match &e.node {
            ExprKind::Ident(name) => leaf(AstKind::Ident, wrapped("Ident(", name), Some(e.span)),
            ExprKind::Lit(l) => {
                let t = l.to_string();
                leaf(AstKind::Literal, wrapped("Literal(", &t), Some(e.span))
            },
            ExprKind::BinOp(op, l, r) => {
                let t = op.to_string();
                let mut children: Vec<AstNode> = Vec::new();
                let a = AstNode::from_expr(l);
                let b = AstNode::from_expr(r);
                proof {
                    lemma_nodes_push(children@, a);
                }
                children.push(a);
                proof {
                    lemma_nodes_push(children@, b);
                }
                children.push(b);
                let n = node(AstKind::BinOp, wrapped("BinOp(", &t), Some(e.span), children);
                assert(n@.children =~= expr_node(e@).children);
                n
            },
            ExprKind::Par(x) => {
                let mut children: Vec<AstNode> = Vec::new();
                let a = AstNode::from_expr(x);
                proof {
                    lemma_nodes_push(children@, a);
                }
                children.push(a);
                let n = node(AstKind::Par, "Par()".to_owned(), Some(e.span), children);
                assert(n@.children =~= expr_node(e@).children);
                n
            },
            ExprKind::Call(name, args) => {
                let a = AstNode::from_arguments(args);
                let mut children: Vec<AstNode> = Vec::new();
                proof {
                    lemma_nodes_push(children@, a);
                }
                children.push(a);
                let n = node(AstKind::Call, wrapped("Call(", name), Some(e.span), children);
                assert(n@.children =~= expr_node(e@).children);
                n
            },
            ExprKind::IfThenElse(c, t, el) => {
                let mut children: Vec<AstNode> = Vec::new();
                let a = AstNode::from_expr(c);
                let b = AstNode::from_block(t);
                proof {
                    lemma_nodes_push(children@, a);
                }
                children.push(a);
                proof {
                    lemma_nodes_push(children@, b);
                }
                children.push(b);
                match el {
                    Some(eb) => {
                        let x = AstNode::from_block(eb);
                        proof {
                            lemma_nodes_push(children@, x);
                        }
                        children.push(x);
                    },
                    None => {},
                }
                let n = node(AstKind::IfThenElse, "IfThenElse".to_owned(), Some(e.span), children);
                assert(n@.children =~= expr_node(e@).children);
                n
            },
            ExprKind::Block(b) => {
                let mut children: Vec<AstNode> = Vec::new();
                let a = AstNode::from_block(b);
                proof {
                    lemma_nodes_push(children@, a);
                }
                children.push(a);
                let n = node(AstKind::BlockExpr, "BlockExpr".to_owned(), Some(e.span), children);
                assert(n@.children =~= expr_node(e@).children);
                n
            },
            ExprKind::UnOp(op, x) => {
                let t = op.to_string();
                let mut children: Vec<AstNode> = Vec::new();
                let a = AstNode::from_expr(x);
                proof {
                    lemma_nodes_push(children@, a);
                }
                children.push(a);
                let n = node(AstKind::UnOp, wrapped("UnOp(", &t), Some(e.span), children);
                assert(n@.children =~= expr_node(e@).children);
                n
            },
        }
    }

    /// The tree of call arguments.
    pub fn from_arguments(args: &Arguments) -> (n: AstNode)
        ensures
            n@ == args_node(args@),
        decreases args, 1nat,
    {
        let mut children: Vec<AstNode> = Vec::new();
        let k = args.0.len();
        let mut i: usize = 0;
        while i < k
            invariant
                k == args.0@.len(),
                i <= k,
                args@ == crate::ast::exprs_view(args.0@),
                nodes_view(children@) =~= Seq::new(
                    i as nat,
                    |j: int| if 0 <= j < args@.len() { expr_node(args@[j]) } else { arbitrary() },
                ),
            decreases k - i,
        {
            let c = AstNode::from_expr(&args.0[i]);
            proof {
                lemma_nodes_push(children@, c);
            }
            children.push(c);
            i = i + 1;
        }
        assert(nodes_view(children@) =~= args_node(args@).children);
        node(AstKind::Arguments, "Args".to_owned(), None, children)
    }
}

} // verus!
