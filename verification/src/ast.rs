use vstd::prelude::*;
use crate::error::ErrRange;

verus! {

#[derive(Debug, Clone, Copy, PartialEq, Eq, Structural)]
pub enum Type {
    I32,
    Bool,
    String,
    Unit,
}

/// A type as written in the source, with its range.
#[derive(Debug, Clone, Copy, PartialEq, Eq, Structural)]
pub struct TypeExpr {
    pub node: Type,
    pub span: ErrRange,
}

#[derive(Debug, Clone, Copy, PartialEq, Eq, Structural)]
pub enum BinOp {
    Add,
    Sub,
    Mul,
    Div,
    And,
    Or,
    Eq,
    Lt,
    Gt,
}

#[derive(Debug, Clone, Copy, PartialEq, Eq, Structural)]
pub enum UnOp {
    Neg,
    Bang,
}

#[derive(Debug, Clone, Copy, PartialEq, Eq, Structural)]
pub struct Mutable(pub bool);

#[derive(Debug, Clone, PartialEq)]
pub enum Literal {
    Bool(bool),
    Int(i32),
    String(String),
    Unit,
}

pub enum SpecLiteral {
    Bool(bool),
    Int(i32),
    String(Seq<char>),
    Unit,
}

impl View for Literal {
    type V = SpecLiteral;

    open spec fn view(&self) -> SpecLiteral {
        match self {
            Literal::Bool(b) => SpecLiteral::Bool(*b),
            Literal::Int(i) => SpecLiteral::Int(*i),
            Literal::String(s) => SpecLiteral::String(s@),
            Literal::Unit => SpecLiteral::Unit,
        }
    }
}

#[derive(Debug)]
pub struct Expr {
    pub node: ExprKind,
    pub span: ErrRange,
}

#[derive(Debug)]
pub enum ExprKind {
    Ident(String),
    Lit(Literal),
    BinOp(BinOp, Box<Expr>, Box<Expr>),
    Par(Box<Expr>),
    Call(String, Arguments),
    IfThenElse(Box<Expr>, Block, Option<Block>),
    Block(Block),
    UnOp(UnOp, Box<Expr>),
}

#[derive(Debug)]
pub struct Arguments(pub Vec<Expr>);

#[derive(Debug)]
pub struct Block {
    pub statements: Vec<Statement>,
    pub semi: bool,
}

#[derive(Debug)]
pub struct Statement {
    pub node: StatementKind,
    pub span: ErrRange,
}

#[derive(Debug)]
pub enum StatementKind {
    Let(Mutable, String, Option<TypeExpr>, Option<Expr>),
    Assign(Expr, Expr),
    While(Expr, Block),
    Expr(Expr),
    Fn(FnDeclaration),
}

#[derive(Debug, Clone, PartialEq)]
pub struct Parameter {
    pub mutable: Mutable,
    pub id: String,
    pub ty: TypeExpr,
    pub span: ErrRange,
}

#[derive(Debug, Clone, PartialEq)]
pub struct Parameters(pub Vec<Parameter>);

#[derive(Debug)]
pub struct FnDeclaration {
    pub id: String,
    pub parameters: Parameters,
    pub ty: Option<TypeExpr>,
    pub body: Block,
    pub span: ErrRange,
}

#[derive(Debug)]
pub struct Prog(pub Vec<FnDeclaration>);

pub struct SpecExpr {
    pub node: SpecExprKind,
    pub span: ErrRange,
}

pub enum SpecExprKind {
    Ident(Seq<char>),
    Lit(SpecLiteral),
    BinOp(BinOp, Box<SpecExpr>, Box<SpecExpr>),
    Par(Box<SpecExpr>),
    Call(Seq<char>, Seq<SpecExpr>),
    IfThenElse(Box<SpecExpr>, SpecBlock, Option<SpecBlock>),
    Block(SpecBlock),
    UnOp(UnOp, Box<SpecExpr>),
}

pub struct SpecBlock {
    pub statements: Seq<SpecStatement>,
    pub semi: bool,
}

pub struct SpecStatement {
    pub node: SpecStmtKind,
    pub span: ErrRange,
}

pub enum SpecStmtKind {
    Let(bool, Seq<char>, Option<TypeExpr>, Option<SpecExpr>),
    Assign(SpecExpr, SpecExpr),
    While(SpecExpr, SpecBlock),
    Expr(SpecExpr),
    Fn(SpecFnDecl),
}

pub struct SpecParam {
    pub mutable: bool,
    pub id: Seq<char>,
    pub ty: TypeExpr,
    pub span: ErrRange,
}

pub struct SpecFnDecl {
    pub id: Seq<char>,
    pub params: Seq<SpecParam>,
    pub ty: Option<TypeExpr>,
    pub body: SpecBlock,
    pub span: ErrRange,
}

impl View for Parameter {
    type V = SpecParam;

    open spec fn view(&self) -> SpecParam {
        SpecParam { mutable: self.mutable.0, id: self.id@, ty: self.ty, span: self.span }
    }
}

impl View for Parameters {
    type V = Seq<SpecParam>;

    open spec fn view(&self) -> Seq<SpecParam> {
        self.0@.map_values(|p: Parameter| p@)
    }
}

pub open spec fn expr_view(e: Expr) -> SpecExpr
    decreases e, 0nat,
{
    SpecExpr { node: kind_view(e.node), span: e.span }
}

pub open spec fn kind_view(k: ExprKind) -> SpecExprKind
    decreases k, 0nat,
{
    match k {
        ExprKind::Ident(s) => SpecExprKind::Ident(s@),
        ExprKind::Lit(l) => SpecExprKind::Lit(l@),
        ExprKind::BinOp(op, l, r) => SpecExprKind::BinOp(op, Box::new(expr_view(*l)), Box::new(expr_view(*r))),
        ExprKind::Par(e) => SpecExprKind::Par(Box::new(expr_view(*e))),
        ExprKind::Call(n, a) => SpecExprKind::Call(n@, exprs_view(a.0@)),
        ExprKind::IfThenElse(c, t, e) => SpecExprKind::IfThenElse(
            Box::new(expr_view(*c)),
            block_view(t),
            match e {
                Some(b) => Some(block_view(b)),
                None => None,
            },
        ),
        ExprKind::Block(b) => SpecExprKind::Block(block_view(b)),
        ExprKind::UnOp(op, e) => SpecExprKind::UnOp(op, Box::new(expr_view(*e))),
    }
}

pub open spec fn exprs_view(s: Seq<Expr>) -> Seq<SpecExpr>
    decreases s, 0nat,
{
    Seq::new(s.len(), |i: int| if 0 <= i < s.len() { expr_view(s[i]) } else { arbitrary() })
}

pub open spec fn block_view(b: Block) -> SpecBlock
    decreases b, 0nat,
{
    SpecBlock { statements: stmts_view(b.statements@), semi: b.semi }
}

pub open spec fn stmts_view(s: Seq<Statement>) -> Seq<SpecStatement>
    decreases s, 0nat,
{
    Seq::new(s.len(), |i: int| if 0 <= i < s.len() { stmt_view(s[i]) } else { arbitrary() })
}

pub open spec fn stmt_view(s: Statement) -> SpecStatement
    decreases s, 0nat,
{
    SpecStatement {
        node: match s.node {
            StatementKind::Let(m, id, ty, e) => SpecStmtKind::Let(m.0, id@, ty, match e {
                Some(e) => Some(expr_view(e)),
                None => None,
            }),
            StatementKind::Assign(l, r) => SpecStmtKind::Assign(expr_view(l), expr_view(r)),
            StatementKind::While(c, b) => SpecStmtKind::While(expr_view(c), block_view(b)),
            StatementKind::Expr(e) => SpecStmtKind::Expr(expr_view(e)),
            StatementKind::Fn(f) => SpecStmtKind::Fn(fn_view(f)),
        },
        span: s.span,
    }
}

pub open spec fn fn_view(f: FnDeclaration) -> SpecFnDecl
    decreases f, 0nat,
{
    SpecFnDecl { id: f.id@, params: f.parameters@, ty: f.ty, body: block_view(f.body), span: f.span }
}


impl View for Type {
    type V = Type;

    open spec fn view(&self) -> Type {
        *self
    }
}

impl View for TypeExpr {
    type V = TypeExpr;

    open spec fn view(&self) -> TypeExpr {
        *self
    }
}

impl View for BinOp {
    type V = BinOp;

    open spec fn view(&self) -> BinOp {
        *self
    }
}

impl View for UnOp {
    type V = UnOp;

    open spec fn view(&self) -> UnOp {
        *self
    }
}

impl View for Expr {
    type V = SpecExpr;

    open spec fn view(&self) -> SpecExpr {
        expr_view(*self)
    }
}

impl View for Arguments {
    type V = Seq<SpecExpr>;

    open spec fn view(&self) -> Seq<SpecExpr> {
        exprs_view(self.0@)
    }
}

impl View for Block {
    type V = SpecBlock;

    open spec fn view(&self) -> SpecBlock {
        block_view(*self)
    }
}

impl View for Statement {
    type V = SpecStatement;

    open spec fn view(&self) -> SpecStatement {
        stmt_view(*self)
    }
}

impl View for FnDeclaration {
    type V = SpecFnDecl;

    open spec fn view(&self) -> SpecFnDecl {
        fn_view(*self)
    }
}

impl View for Prog {
    type V = Seq<SpecFnDecl>;

    open spec fn view(&self) -> Seq<SpecFnDecl> {
        self.0@.map_values(|f: FnDeclaration| fn_view(f))
    }
}

impl BinOp {
    pub open spec fn spec_priority(&self) -> u8 {
        match self {
            BinOp::Mul | BinOp::Div => 5,
            BinOp::Add | BinOp::Sub => 4,
            BinOp::Eq | BinOp::Lt | BinOp::Gt => 3,
            BinOp::And => 2,
            BinOp::Or => 1,
        }
    }

    /// How tightly the operator binds: a higher number binds tighter.
    #[verifier::when_used_as_spec(spec_priority)]
    pub fn priority(&self) -> (p: u8)
        ensures
            p == self.spec_priority(),
    {
        match self {
            BinOp::Mul => 5,
            BinOp::Div => 5,
            BinOp::Add => 4,
            BinOp::Sub => 4,
            BinOp::Eq => 3,
            BinOp::Lt => 3,
            BinOp::Gt => 3,
            BinOp::And => 2,
            BinOp::Or => 1,
        }
    }

    pub open spec fn spec_expected_type(&self) -> Type {
        match self {
            BinOp::And | BinOp::Or => Type::Bool,
            _ => Type::I32,
        }
    }

    /// The type both operands must have.
    #[verifier::when_used_as_spec(spec_expected_type)]
    pub fn expected_type(&self) -> (t: Type)
        ensures
            t == self.spec_expected_type(),
    {
        match self {
            BinOp::Add => Type::I32,
            BinOp::Sub => Type::I32,
            BinOp::Mul => Type::I32,
            BinOp::Div => Type::I32,
            BinOp::And => Type::Bool,
            BinOp::Or => Type::Bool,
            BinOp::Eq => Type::I32,
            BinOp::Lt => Type::I32,
            BinOp::Gt => Type::I32,
        }
    }
}

impl UnOp {
    pub open spec fn spec_priority(&self) -> u8 {
        6
    }

    /// How tightly the operator binds: tighter than every binary operator.
    #[verifier::when_used_as_spec(spec_priority)]
    pub fn priority(&self) -> (p: u8)
        ensures
            p == self.spec_priority(),
    {
        match self {
            UnOp::Neg => 6,
            UnOp::Bang => 6,
        }
    }

    pub open spec fn spec_expected_type(&self) -> Type {
        match self {
            UnOp::Neg => Type::I32,
            UnOp::Bang => Type::Bool,
        }
    }

    /// The type the operand must have.
    #[verifier::when_used_as_spec(spec_expected_type)]
    pub fn expected_type(&self) -> (t: Type)
        ensures
            t == self.spec_expected_type(),
    {
        match self {
            UnOp::Neg => Type::I32,
            UnOp::Bang => Type::Bool,
        }
    }
}

/// An expression that does not come from source text.
pub fn expr(kind: ExprKind) -> (e: Expr)
    ensures
        e.node == kind,
        e.span == ErrRange::spec_dummy(),
{
    Expr { node: kind, span: ErrRange::dummy() }
}

impl ExprKind {
    pub fn bin_op(o: BinOp, left: Expr, right: Expr) -> (k: ExprKind)
        ensures
            k == ExprKind::BinOp(o, Box::new(left), Box::new(right)),
    {
        ExprKind::BinOp(o, Box::new(left), Box::new(right))
    }

    pub fn un_op(o: UnOp, right: Expr) -> (k: ExprKind)
        ensures
            k == ExprKind::UnOp(o, Box::new(right)),
    {
        ExprKind::UnOp(o, Box::new(right))
    }

    pub open spec fn spec_as_str(&self) -> Seq<char> {
        match self {
            ExprKind::Ident(_) => seq!['I', 'd', 'e', 'n', 't'],
            ExprKind::Lit(_) => seq!['L', 'i', 't'],
            ExprKind::BinOp(_, _, _) => seq!['B', 'i', 'n', 'O', 'p'],
            ExprKind::Par(_) => seq!['P', 'a', 'r'],
            ExprKind::Call(_, _) => seq!['C', 'a', 'l', 'l'],
            ExprKind::IfThenElse(_, _, _) => seq!['I', 'f', 'T', 'h', 'e', 'n', 'E', 'l', 's', 'e'],
            ExprKind::Block(_) => seq!['B', 'l', 'o', 'c', 'k'],
            ExprKind::UnOp(_, _) => seq!['U', 'n', 'O', 'p'],
        }
    }

    /// The name of the kind of expression.
    pub fn as_str(&self) -> (s: &'static str)
        ensures
            s@ == self.spec_as_str(),
    {
        proof {
            reveal_strlit("Ident");
            reveal_strlit("Lit");
            reveal_strlit("BinOp");
            reveal_strlit("Par");
            reveal_strlit("Call");
            reveal_strlit("IfThenElse");
            reveal_strlit("Block");
            reveal_strlit("UnOp");
        }
        let s = match self {
            ExprKind::Ident(_) => "Ident",
            ExprKind::Lit(_) => "Lit",
            ExprKind::BinOp(_, _, _) => "BinOp",
            ExprKind::Par(_) => "Par",
            ExprKind::Call(_, _) => "Call",
            ExprKind::IfThenElse(_, _, _) => "IfThenElse",
            ExprKind::Block(_) => "Block",
            ExprKind::UnOp(_, _) => "UnOp",
        };
        assert(s@ =~= self.spec_as_str());
        s
    }
}

impl Block {
    pub fn new(statements: Vec<Statement>, semi: bool) -> (b: Block)
        ensures
            b.statements == statements,
            b.semi == semi,
    {
        Block { statements, semi }
    }
}

impl Type {
    pub fn i32() -> (t: Type)
        ensures
            t == Type::I32,
    {
        Type::I32
    }

    pub fn bool() -> (t: Type)
        ensures
            t == Type::Bool,
    {
        Type::Bool
    }

    pub fn string() -> (t: Type)
        ensures
            t == Type::String,
    {
        Type::String
    }

    pub fn unit() -> (t: Type)
        ensures
            t == Type::Unit,
    {
        Type::Unit
    }
}


impl From<i32> for Literal {
    fn from(i: i32) -> (l: Literal)
        ensures
            l == Literal::Int(i),
    {
        Literal::Int(i)
    }
}

impl vstd::std_specs::convert::FromSpecImpl<i32> for Literal {
    open spec fn obeys_from_spec() -> bool {
        true
    }

    open spec fn from_spec(i: i32) -> Literal {
        Literal::Int(i)
    }
}

impl From<bool> for Literal {
    fn from(b: bool) -> (l: Literal)
        ensures
            l == Literal::Bool(b),
    {
        Literal::Bool(b)
    }
}

impl vstd::std_specs::convert::FromSpecImpl<bool> for Literal {
    open spec fn obeys_from_spec() -> bool {
        true
    }

    open spec fn from_spec(b: bool) -> Literal {
        Literal::Bool(b)
    }
}

impl From<()> for Literal {
    fn from(u: ()) -> (l: Literal)
        ensures
            l == Literal::Unit,
    {
        Literal::Unit
    }
}

impl vstd::std_specs::convert::FromSpecImpl<()> for Literal {
    open spec fn obeys_from_spec() -> bool {
        true
    }

    open spec fn from_spec(u: ()) -> Literal {
        Literal::Unit
    }
}

impl From<String> for Literal {
    fn from(s: String) -> (l: Literal)
        ensures
            l == Literal::String(s),
    {
        Literal::String(s)
    }
}

impl vstd::std_specs::convert::FromSpecImpl<String> for Literal {
    open spec fn obeys_from_spec() -> bool {
        true
    }

    open spec fn from_spec(s: String) -> Literal {
        Literal::String(s)
    }
}

impl From<ExprKind> for Expr {
    /// An expression that does not come from source text.
    fn from(kind: ExprKind) -> (e: Expr)
        ensures
            e.node == kind,
            e.span == ErrRange::spec_dummy(),
    {
        expr(kind)
    }
}

impl vstd::std_specs::convert::FromSpecImpl<ExprKind> for Expr {
    open spec fn obeys_from_spec() -> bool {
        true
    }

    open spec fn from_spec(kind: ExprKind) -> Expr {
        Expr { node: kind, span: ErrRange::spec_dummy() }
    }
}

impl From<Expr> for Statement {
    /// The expression as a statement, with the expression's range.
    fn from(e: Expr) -> (s: Statement)
        ensures
            s == (Statement { node: StatementKind::Expr(e), span: e.span }),
    {
        let span = e.span;
        Statement { node: StatementKind::Expr(e), span }
    }
}

impl vstd::std_specs::convert::FromSpecImpl<Expr> for Statement {
    open spec fn obeys_from_spec() -> bool {
        true
    }

    open spec fn from_spec(e: Expr) -> Statement {
        Statement { node: StatementKind::Expr(e), span: e.span }
    }
}

} // verus!
