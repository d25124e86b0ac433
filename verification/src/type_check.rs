use vstd::prelude::*;
use vstd::hash_map::StringHashMap;
use crate::ast::{
    Arguments, BinOp, Block, Expr, ExprKind, FnDeclaration, Literal, Prog, SpecBlock, SpecExpr, SpecExprKind,
    SpecFnDecl, SpecLiteral, SpecParam, SpecStatement, SpecStmtKind, Statement, StatementKind, Type, fn_view,
};
use crate::env::{AnnotatedType, TypeEnv, TypeScopes, define_top, lookup_binding_in, lookup_function_in};
use crate::error::ErrRange;
use crate::vm::{main_name, println_name};

verus! {

/// A type as the checker sees it: `None` stands for a type that could not be
/// determined because of an error already reported, which unifies with anything.
#[derive(Debug, Clone, Copy, PartialEq, Eq, Structural)]
pub struct Ty {
    pub ty: Option<Type>,
    pub span: ErrRange,
}

#[derive(Debug, Clone, Copy, PartialEq, Eq, Structural)]
pub enum UnknownKind {
    Variable,
    Function,
}

#[derive(Debug, Clone, Copy, PartialEq, Eq, Structural)]
pub enum AssignmentErrorKind {
    NotIdent,
    NotFound,
    NotMutable,
}

#[derive(Debug, Clone, Copy, PartialEq, Eq, Structural)]
pub enum DuplicateKind {
    Function,
}

/// A problem the type checker found, with the source ranges it concerns.
#[derive(Debug)]
pub enum TypeError {
    TypeMismatch { expected: Ty, got: Ty, span: ErrRange },
    UnknownFunction { name: String, span: ErrRange },
    UnknownVariable { name: String, span: ErrRange },
    Assignment { kind: AssignmentErrorKind, span: ErrRange, decl_span: ErrRange },
    Duplicate { kind: DuplicateKind, name: String, first_span: ErrRange, second_span: ErrRange },
    Uninitialized { name: String, span: ErrRange },
    ParameterArityMismatch { id: String, expected: usize, got: usize, call_span: ErrRange, fn_span: ErrRange },
}

/// The mathematical counterpart of [`TypeError`].
pub enum SpecTypeError {
    TypeMismatch { expected: Ty, got: Ty, span: ErrRange },
    UnknownFunction { name: Seq<char>, span: ErrRange },
    UnknownVariable { name: Seq<char>, span: ErrRange },
    Assignment { kind: AssignmentErrorKind, span: ErrRange, decl_span: ErrRange },
    Duplicate { kind: DuplicateKind, name: Seq<char>, first_span: ErrRange, second_span: ErrRange },
    Uninitialized { name: Seq<char>, span: ErrRange },
    ParameterArityMismatch { id: Seq<char>, expected: usize, got: usize, call_span: ErrRange, fn_span: ErrRange },
}

impl View for TypeError {
    type V = SpecTypeError;

    open spec fn view(&self) -> SpecTypeError {
        match self {
            TypeError::TypeMismatch { expected, got, span } => SpecTypeError::TypeMismatch {
                expected: *expected,
                got: *got,
                span: *span,
            },
            TypeError::UnknownFunction { name, span } => SpecTypeError::UnknownFunction { name: name@, span: *span },
            TypeError::UnknownVariable { name, span } => SpecTypeError::UnknownVariable { name: name@, span: *span },
            TypeError::Assignment { kind, span, decl_span } => SpecTypeError::Assignment {
                kind: *kind,
                span: *span,
                decl_span: *decl_span,
            },
            TypeError::Duplicate { kind, name, first_span, second_span } => SpecTypeError::Duplicate {
                kind: *kind,
                name: name@,
                first_span: *first_span,
                second_span: *second_span,
            },
            TypeError::Uninitialized { name, span } => SpecTypeError::Uninitialized { name: name@, span: *span },
            TypeError::ParameterArityMismatch { id, expected, got, call_span, fn_span } => SpecTypeError::ParameterArityMismatch {
                id: id@,
                expected: *expected,
                got: *got,
                call_span: *call_span,
                fn_span: *fn_span,
            },
        }
    }
}

impl TypeError {
    /// A copy of the error.
    pub fn copy(&self) -> (e: TypeError)
        ensures
            e@ == self@,
    {
        match self {
            TypeError::TypeMismatch { expected, got, span } => TypeError::TypeMismatch {
                expected: *expected,
                got: *got,
                span: *span,
            },
            TypeError::UnknownFunction { name, span } => TypeError::UnknownFunction { name: name.clone(), span: *span },
            TypeError::UnknownVariable { name, span } => TypeError::UnknownVariable { name: name.clone(), span: *span },
            TypeError::Assignment { kind, span, decl_span } => TypeError::Assignment {
                kind: *kind,
                span: *span,
                decl_span: *decl_span,
            },
            TypeError::Duplicate { kind, name, first_span, second_span } => TypeError::Duplicate {
                kind: *kind,
                name: name.clone(),
                first_span: *first_span,
                second_span: *second_span,
            },
            TypeError::Uninitialized { name, span } => TypeError::Uninitialized { name: name.clone(), span: *span },
            TypeError::ParameterArityMismatch { id, expected, got, call_span, fn_span } => TypeError::ParameterArityMismatch {
                id: id.clone(),
                expected: *expected,
                got: *got,
                call_span: *call_span,
                fn_span: *fn_span,
            },
        }
    }
}

impl Ty {
    /// A type that does not come from source text.
    pub open spec fn spec_of(t: Type) -> Ty {
        Ty { ty: Some(t), span: ErrRange::spec_dummy() }
    }

    /// The type of an expression whose checking failed.
    pub open spec fn spec_error() -> Ty {
        Ty { ty: None, span: ErrRange::spec_dummy() }
    }

    pub fn i32() -> (t: Ty)
        ensures
            t == Ty::spec_of(Type::I32),
    {
        Ty { ty: Some(Type::I32), span: ErrRange::dummy() }
    }

    pub fn bool() -> (t: Ty)
        ensures
            t == Ty::spec_of(Type::Bool),
    {
        Ty { ty: Some(Type::Bool), span: ErrRange::dummy() }
    }

    pub fn string() -> (t: Ty)
        ensures
            t == Ty::spec_of(Type::String),
    {
        Ty { ty: Some(Type::String), span: ErrRange::dummy() }
    }

    pub fn unit() -> (t: Ty)
        ensures
            t == Ty::spec_of(Type::Unit),
    {
        Ty { ty: Some(Type::Unit), span: ErrRange::dummy() }
    }

    pub fn error() -> (t: Ty)
        ensures
            t == Ty::spec_error(),
    {
        Ty { ty: None, span: ErrRange::dummy() }
    }

    /// Whether this stands for a type that could not be determined.
    pub fn is_error(&self) -> (b: bool)
        ensures
            b == (self.ty is None),
    {
        self.ty.is_none()
    }
}

/// The type of a literal.
pub open spec fn literal_type(l: SpecLiteral) -> Type {
    match l {
        SpecLiteral::Unit => Type::Unit,
        SpecLiteral::Bool(_) => Type::Bool,
        SpecLiteral::Int(_) => Type::I32,
        SpecLiteral::String(_) => Type::String,
    }
}

// ---------------------------------------------------------------------------
// The rules of the type checker, as mathematics

/// What the checker knows: its scopes and the errors found so far.
pub struct TcState {
    pub scopes: TypeScopes,
    pub errors: Seq<SpecTypeError>,
}

/// Two types agree when they are equal or one of them is already an error;
/// the result is then the expected type, or the error type.
pub open spec fn unify_spec(span: ErrRange, got: Ty, expected: Ty) -> Result<Ty, SpecTypeError> {
    if got.ty is None || expected.ty is None {
        Ok(Ty::spec_error())
    } else if got.ty == expected.ty {
        Ok(expected)
    } else {
        Err(SpecTypeError::TypeMismatch { expected, got, span })
    }
}

pub open spec fn report_spec(st: TcState, e: SpecTypeError) -> (Ty, TcState) {
    (Ty::spec_error(), TcState { scopes: st.scopes, errors: st.errors.push(e) })
}

/// Unification that records a mismatch and goes on with the error type.
pub open spec fn try_unify_spec(st: TcState, span: ErrRange, got: Ty, expected: Ty) -> (Ty, TcState) {
    match unify_spec(span, got, expected) {
        Ok(t) => (t, st),
        Err(e) => report_spec(st, e),
    }
}

pub open spec fn define_binding_spec(st: TcState, id: Seq<char>, a: AnnotatedType) -> TcState {
    TcState {
        scopes: TypeScopes { bindings: define_top(st.scopes.bindings, id, a), functions: st.scopes.functions },
        errors: st.errors,
    }
}

/// The binding a parameter gets inside its function.
pub open spec fn param_binding(p: SpecParam) -> AnnotatedType {
    AnnotatedType { ty: Ty { ty: Some(p.ty.node), span: p.ty.span }, mutable: p.mutable, is_initialized: true, decl_span: p.span }
}

/// The first `k` parameters bound in the innermost scope.
pub open spec fn define_params(st: TcState, ps: Seq<SpecParam>, k: int) -> TcState
    decreases k,
{
    if k <= 0 {
        st
    } else {
        define_binding_spec(define_params(st, ps, k - 1), ps[k - 1].id, param_binding(ps[k - 1]))
    }
}

/// The functions the first `k` statements declare, added to the innermost function scope.
pub open spec fn hoist_into(fs: Seq<Map<Seq<char>, SpecFnDecl>>, stmts: Seq<SpecStatement>, k: int) -> Seq<Map<Seq<char>, SpecFnDecl>>
    decreases k,
{
    if k <= 0 {
        fs
    } else {
        match stmts[k - 1].node {
            SpecStmtKind::Fn(f) => define_top(hoist_into(fs, stmts, k - 1), f.id, f),
            _ => hoist_into(fs, stmts, k - 1),
        }
    }
}

/// The type a call of `f` has: its declared result, or unit.
pub open spec fn return_ty(f: SpecFnDecl) -> Ty {
    match f.ty {
        Some(t) => Ty { ty: Some(t.node), span: t.span },
        None => Ty::spec_of(Type::Unit),
    }
}

pub open spec fn tc_expr(st: TcState, e: SpecExpr) -> (Ty, TcState)
    decreases e, 1int,
{
    match e.node {
        SpecExprKind::Ident(l) => match lookup_binding_in(st.scopes.bindings, l) {
            Some(b) => (b.ty, st),
            None => report_spec(st, SpecTypeError::UnknownVariable { name: l, span: e.span }),
        },
        SpecExprKind::Lit(l) => (Ty { ty: Some(literal_type(l)), span: e.span }, st),
        SpecExprKind::BinOp(op, l, r) => {
            let a = tc_expr(st, *l);
            let b = tc_expr(a.1, *r);
            if op == BinOp::Eq || op == BinOp::Lt || op == BinOp::Gt {
                let c = try_unify_spec(b.1, e.span, a.0, Ty::spec_of(Type::I32));
                let d = try_unify_spec(c.1, e.span, b.0, Ty::spec_of(Type::I32));
                if c.0.ty is None || d.0.ty is None {
                    (Ty::spec_error(), d.1)
                } else {
                    (Ty::spec_of(Type::Bool), d.1)
                }
            } else {
                let c = try_unify_spec(b.1, e.span, a.0, b.0);
                try_unify_spec(c.1, e.span, c.0, Ty::spec_of(op.spec_expected_type()))
            }
        },
        SpecExprKind::Par(inner) => tc_expr(st, *inner),
        SpecExprKind::Call(id, args) => tc_call(st, e.span, id, args),
        SpecExprKind::IfThenElse(c, t, opt) => {
            let a = tc_expr(st, *c);
            let b = try_unify_spec(a.1, e.span, a.0, Ty::spec_of(Type::Bool));
            match opt {
                Some(eb) => {
                    let x = tc_block(b.1, eb);
                    let y = tc_block(x.1, t);
                    try_unify_spec(y.1, e.span, y.0, x.0)
                },
                None => (Ty::spec_of(Type::Unit), tc_block(b.1, t).1),
            }
        },
        SpecExprKind::Block(b) => tc_block(st, b),
        SpecExprKind::UnOp(op, x) => {
            let a = tc_expr(st, *x);
            try_unify_spec(a.1, x.span, a.0, Ty::spec_of(op.spec_expected_type()))
        },
    }
}

/// A call: `println!` takes a string and then integers; another function must be
/// declared, get as many arguments as it has parameters, and each argument must
/// agree with the binding of the parameter's name.
pub open spec fn tc_call(st: TcState, span: ErrRange, id: Seq<char>, args: Seq<SpecExpr>) -> (Ty, TcState)
    decreases args, args.len() + 1,
{
    if id == println_name() {
        if args.len() == 0 {
            (
                Ty::spec_of(Type::Unit),
                report_spec(
                    st,
                    SpecTypeError::TypeMismatch { expected: Ty::spec_of(Type::String), got: Ty::spec_of(Type::Unit), span },
                ).1,
            )
        } else {
            let a = tc_expr(st, args[0]);
            let b = try_unify_spec(a.1, span, a.0, Ty::spec_of(Type::String));
            (Ty::spec_of(Type::Unit), tc_println_rest(b.1, args, 1))
        }
    } else {
        match lookup_function_in(st.scopes.functions, id) {
            None => report_spec(st, SpecTypeError::UnknownFunction { name: id, span }),
            Some(f) => if f.params.len() != args.len() {
                report_spec(
                    st,
                    SpecTypeError::ParameterArityMismatch {
                        id: f.id,
                        expected: f.params.len() as usize,
                        got: args.len() as usize,
                        call_span: span,
                        fn_span: f.span,
                    },
                )
            } else {
                let r = tc_call_args(st, f.params, args, span, 0);
                if r.0 {
                    (return_ty(f), r.1)
                } else {
                    (Ty::spec_error(), r.1)
                }
            },
        }
    }
}

/// The arguments of `println!` from position `i` on must be integers.
pub open spec fn tc_println_rest(st: TcState, args: Seq<SpecExpr>, i: int) -> TcState
    decreases args, args.len() - i,
{
    if i < 0 || i >= args.len() {
        st
    } else {
        let a = tc_expr(st, args[i]);
        let b = try_unify_spec(a.1, args[i].span, a.0, Ty::spec_of(Type::I32));
        tc_println_rest(b.1, args, i + 1)
    }
}

/// The arguments from position `i` on, each against the binding of its parameter's
/// name; false where a parameter's name has no binding, which stops the check.
pub open spec fn tc_call_args(st: TcState, ps: Seq<SpecParam>, args: Seq<SpecExpr>, span: ErrRange, i: int) -> (bool, TcState)
    decreases args, args.len() - i,
{
    if i < 0 || i >= args.len() || i >= ps.len() {
        (true, st)
    } else {
        match lookup_binding_in(st.scopes.bindings, ps[i].id) {
            None => (false, report_spec(st, SpecTypeError::UnknownVariable { name: ps[i].id, span }).1),
            Some(b) => {
                let a = tc_expr(st, args[i]);
                let c = try_unify_spec(a.1, args[i].span, b.ty, a.0);
                tc_call_args(c.1, ps, args, span, i + 1)
            },
        }
    }
}

/// A block: new scopes of bindings and of functions, the functions it declares made
/// known in its own scope first; its type is that of its last statement, or unit
/// where it ends with `;` or is empty. What it declares is gone after it.
pub open spec fn tc_block(st: TcState, b: SpecBlock) -> (Ty, TcState)
    decreases b, 1int,
{
    let st1 = TcState {
        scopes: TypeScopes {
            bindings: st.scopes.bindings.push(Map::empty()),
            functions: hoist_into(st.scopes.functions.push(Map::empty()), b.statements, b.statements.len() as int),
        },
        errors: st.errors,
    };
    let r = tc_stmts(st1, b.statements, 0, Ty::spec_of(Type::Unit));
    let st2 = TcState {
        scopes: TypeScopes { bindings: r.1.scopes.bindings.drop_last(), functions: r.1.scopes.functions.drop_last() },
        errors: r.1.errors,
    };
    (if b.semi { Ty::spec_of(Type::Unit) } else { r.0 }, st2)
}

/// The statements from position `i` on; `last` is the type of the one before.
pub open spec fn tc_stmts(st: TcState, ss: Seq<SpecStatement>, i: int, last: Ty) -> (Ty, TcState)
    decreases ss, ss.len() - i,
{
    if i < 0 || i >= ss.len() {
        (last, st)
    } else {
        let a = tc_stmt(st, ss[i]);
        tc_stmts(a.1, ss, i + 1, a.0)
    }
}

pub open spec fn tc_stmt(st: TcState, s: SpecStatement) -> (Ty, TcState)
    decreases s, 1int,
{
    match s.node {
        SpecStmtKind::Let(mutable, id, ty, init) => match ty {
            None => match init {
                None => report_spec(st, SpecTypeError::Uninitialized { name: id, span: s.span }),
                Some(e) => {
                    let a = tc_expr(st, e);
                    (a.0, define_binding_spec(a.1, id, AnnotatedType { ty: a.0, mutable, is_initialized: true, decl_span: s.span }))
                },
            },
            Some(t) => {
                let declared = Ty { ty: Some(t.node), span: t.span };
                match init {
                    None => (declared, define_binding_spec(st, id, AnnotatedType {
                        ty: declared,
                        mutable,
                        is_initialized: false,
                        decl_span: s.span,
                    })),
                    Some(e) => {
                        let a = tc_expr(st, e);
                        let b = try_unify_spec(a.1, e.span, a.0, declared);
                        (declared, define_binding_spec(b.1, id, AnnotatedType {
                            ty: declared,
                            mutable,
                            is_initialized: true,
                            decl_span: s.span,
                        }))
                    },
                }
            },
        },
        SpecStmtKind::Assign(lhs, rhs) => match lhs.node {
            SpecExprKind::Ident(id) => match lookup_binding_in(st.scopes.bindings, id) {
                None => report_spec(st, SpecTypeError::UnknownVariable { name: id, span: lhs.span }),
                Some(at) => {
                    let a = tc_expr(st, rhs);
                    let b = try_unify_spec(a.1, rhs.span, at.ty, a.0);
                    if at.mutable || !at.is_initialized {
                        (Ty::spec_of(Type::Unit), define_binding_spec(b.1, id, AnnotatedType {
                            ty: b.0,
                            mutable: at.mutable,
                            is_initialized: true,
                            decl_span: at.ty.span,
                        }))
                    } else {
                        report_spec(b.1, SpecTypeError::Assignment {
                            kind: AssignmentErrorKind::NotMutable,
                            span: lhs.span,
                            decl_span: at.decl_span,
                        })
                    }
                },
            },
            _ => report_spec(st, SpecTypeError::Assignment { kind: AssignmentErrorKind::NotIdent, span: lhs.span, decl_span: lhs.span }),
        },
        SpecStmtKind::While(c, b) => {
            let a = tc_expr(st, c);
            let x = try_unify_spec(a.1, c.span, a.0, Ty::spec_of(Type::Bool));
            tc_block(x.1, b)
        },
        SpecStmtKind::Expr(e) => tc_expr(st, e),
        SpecStmtKind::Fn(f) => (Ty::spec_of(Type::Unit), define_params(st, f.params, f.params.len() as int)),
    }
}

/// A function: its parameters are bound, then its declared type must agree with the
/// type of its body; a mismatch names the body's type as expected.
pub open spec fn tc_fn(st: TcState, f: SpecFnDecl) -> (Ty, TcState) {
    let st1 = define_params(st, f.params, f.params.len() as int);
    let a = tc_block(st1, f.body);
    try_unify_spec(a.1, f.span, return_ty(f), a.0)
}

/// The declarations from position `i` on join the function scope; `Err` where a name
/// was declared before, with the duplicate reported.
pub open spec fn declare_fns(st: TcState, fs: Seq<SpecFnDecl>, i: int, seen: Map<Seq<char>, ErrRange>) -> Result<TcState, TcState>
    decreases fs.len() - i,
{
    if i < 0 || i >= fs.len() {
        Ok(st)
    } else if seen.contains_key(fs[i].id) {
        Err(report_spec(st, SpecTypeError::Duplicate {
            kind: DuplicateKind::Function,
            name: fs[i].id,
            first_span: seen[fs[i].id],
            second_span: fs[i].span,
        }).1)
    } else {
        declare_fns(
            TcState {
                scopes: TypeScopes { bindings: st.scopes.bindings, functions: define_top(st.scopes.functions, fs[i].id, fs[i]) },
                errors: st.errors,
            },
            fs,
            i + 1,
            seen.insert(fs[i].id, fs[i].span),
        )
    }
}

/// The first `k` declarations checked in order.
pub open spec fn check_fns(st: TcState, fs: Seq<SpecFnDecl>, k: int) -> TcState
    decreases k,
{
    if k <= 0 {
        st
    } else {
        tc_fn(check_fns(st, fs, k - 1), fs[k - 1]).1
    }
}

/// A program: no function declared twice, every function checked, and a `main`,
/// whose declared type is the program's.
pub open spec fn tc_prog(st: TcState, fs: Seq<SpecFnDecl>) -> (Ty, TcState) {
    match declare_fns(st, fs, 0, Map::empty()) {
        Err(st1) => (Ty::spec_error(), st1),
        Ok(st1) => {
            let st2 = check_fns(st1, fs, fs.len() as int);
            match lookup_function_in(st2.scopes.functions, main_name()) {
                None => report_spec(st2, SpecTypeError::UnknownFunction { name: main_name(), span: ErrRange::spec_dummy() }),
                Some(f) => (return_ty(f), st2),
            }
        },
    }
}

// ---------------------------------------------------------------------------
// The type checker

/// Whether `r` is the executable counterpart of `unify_spec`.
pub open spec fn unify_agrees(r: Result<Ty, TypeError>, s: Result<Ty, SpecTypeError>) -> bool {
    match r {
        Ok(t) => s == Ok::<Ty, SpecTypeError>(t),
        Err(e) => s == Err::<Ty, SpecTypeError>(e@),
    }
}

/// Unifies `got` with `expected`, see [`unify_spec`].
pub fn unify(span: ErrRange, got: Ty, expected: Ty) -> (r: Result<Ty, TypeError>)
    ensures
        unify_agrees(r, unify_spec(span, got, expected)),
{
    if got.is_error() || expected.is_error() {
        return Ok(Ty::error());
    }
    if got.ty == expected.ty {
        Ok(expected)
    } else {
        Err(TypeError::TypeMismatch { expected, got, span })
    }
}

proof fn lemma_errors_push(v: Seq<TypeError>, e: TypeError)
    ensures
        v.push(e).map_values(|x: TypeError| x@) == v.map_values(|x: TypeError| x@).push(e@),
{
    assert(v.push(e).map_values(|x: TypeError| x@) =~= v.map_values(|x: TypeError| x@).push(e@));
}

fn is_println_name(s: &String) -> (b: bool)
    ensures
        b == (s@ == println_name()),
{
    let p = "println!".to_owned();
    proof {
        reveal_strlit("println!");
        assert(p@ =~= println_name());
    }
    *s == p
}

/// Infers the types of expressions and checks statements, blocks and programs,
/// collecting every error it finds.
pub struct TypeChecker<'a> {
    pub env: TypeEnv<'a>,
    pub errors: Vec<TypeError>,
}

impl<'a> TypeChecker<'a> {
    pub open spec fn state(&self) -> TcState {
        TcState { scopes: self.env.scopes(), errors: self.errors@.map_values(|e: TypeError| e@) }
    }

    /// The checker's scopes keep their number of levels.
    pub open spec fn same_depth(&self, other: &TypeChecker<'a>) -> bool {
        &&& self.env.wf()
        &&& self.state().scopes.bindings.len() == other.state().scopes.bindings.len()
        &&& self.state().scopes.functions.len() == other.state().scopes.functions.len()
    }

    /// A checker with one empty scope of each kind and no errors.
    pub fn new() -> (tc: Self)
        ensures
            tc.env.wf(),
            tc.state() == (TcState {
                scopes: TypeScopes { bindings: seq![Map::empty()], functions: seq![Map::empty()] },
                errors: seq![],
            }),
    {
        let tc = TypeChecker { env: TypeEnv::new(), errors: Vec::new() };
        assert(tc.state().errors =~= seq![]);
        tc
    }

    fn report(&mut self, error: TypeError) -> (t: Ty)
        ensures
            (t, final(self).state()) == report_spec(old(self).state(), error@),
            final(self).env == old(self).env,
    {
        proof {
            lemma_errors_push(self.errors@, error);
        }
        self.errors.push(error);
        Ty::error()
    }

    fn try_unify(&mut self, span: ErrRange, got: Ty, expected: Ty) -> (t: Ty)
        ensures
            (t, final(self).state()) == try_unify_spec(old(self).state(), span, got, expected),
            final(self).env == old(self).env,
    {
        match unify(span, got, expected) {
            Ok(ty) => ty,
            Err(err) => self.report(err),
        }
    }

    /// The type of an expression.
    pub fn check_expr(&mut self, expr: &'a Expr) -> (t: Ty)
        requires
            old(self).env.wf(),
        ensures
            final(self).same_depth(old(self)),
            (t, final(self).state()) == tc_expr(old(self).state(), expr@),
        decreases expr, 1nat,
    {
        match &expr.node {
            ExprKind::Ident(l) => match self.env.lookup_binding(l.as_str()) {
                Some(binding) => binding.ty,
                None => self.report(TypeError::UnknownVariable { name: l.clone(), span: expr.span }),
            },
            ExprKind::Lit(literal) => {
                let ty = match literal {
                    Literal::Unit => Type::Unit,
                    Literal::Bool(_) => Type::Bool,
                    Literal::Int(_) => Type::I32,
                    Literal::String(_) => Type::String,
                };
                Ty { ty: Some(ty), span: expr.span }
            },
            ExprKind::BinOp(bin_op, lhs, rhs) => {
                let lhs_type = self.check_expr(lhs);
                let rhs_type = self.check_expr(rhs);
                match bin_op {
                    BinOp::Eq | BinOp::Lt | BinOp::Gt => {
                        let l = self.try_unify(expr.span, lhs_type, Ty::i32());
                        let r = self.try_unify(expr.span, rhs_type, Ty::i32());
                        if l.is_error() || r.is_error() {
                            Ty::error()
                        } else {
                            Ty::bool()
                        }
                    },
                    _ => {
                        let expected = Ty { ty: Some(bin_op.expected_type()), span: ErrRange::dummy() };
                        let got = self.try_unify(expr.span, lhs_type, rhs_type);
                        self.try_unify(expr.span, got, expected)
                    },
                }
            },
            ExprKind::Par(inner) => self.check_expr(inner),
            ExprKind::Call(id, arguments) => self.check_call(expr, id, arguments),
            ExprKind::IfThenElse(cond, then, opt) => {
                let cond_type = self.check_expr(cond);
                self.try_unify(expr.span, cond_type, Ty::bool());
                match opt {
                    Some(else_block) => {
                        let expected = self.check_block(else_block);
                        let got = self.check_block(then);
                        self.try_unify(expr.span, got, expected)
                    },
                    None => {
                        self.check_block(then);
                        Ty::unit()
                    },
                }
            },
            ExprKind::Block(block) => self.check_block(block),
            ExprKind::UnOp(un_op, inner) => {
                let expected = Ty { ty: Some(un_op.expected_type()), span: ErrRange::dummy() };
                let got = self.check_expr(inner);
                self.try_unify(inner.span, got, expected)
            },
        }
    }

    /// The type of a statement: that of an expression statement, of a `while` body or
    /// of a `let` binding's type; unit for the others.
    pub fn check_stmt(&mut self, stmt: &'a Statement) -> (t: Ty)
        requires
            old(self).env.wf(),
        ensures
            final(self).same_depth(old(self)),
            (t, final(self).state()) == tc_stmt(old(self).state(), stmt@),
        decreases stmt, 1nat,
    {
        match &stmt.node {
            StatementKind::Let(mutable, id, ty, init) => match ty {
                None => match init {
                    None => self.report(TypeError::Uninitialized { name: id.clone(), span: stmt.span }),
                    Some(e) => {
                        let inferred = self.check_expr(e);
                        self.env.define_binding(id.as_str(), AnnotatedType::new(inferred, mutable.0, true, stmt.span));
                        inferred
                    },
                },
                Some(t) => {
                    let declared = Ty { ty: Some(t.node), span: t.span };
                    match init {
                        None => {
                            self.env.define_binding(id.as_str(), AnnotatedType::new(declared, mutable.0, false, stmt.span));
                            declared
                        },
                        Some(e) => {
                            let got = self.check_expr(e);
                            self.try_unify(e.span, got, declared);
                            self.env.define_binding(id.as_str(), AnnotatedType::new(declared, mutable.0, true, stmt.span));
                            declared
                        },
                    }
                },
            },
            StatementKind::Assign(lhs, rhs) => {
                let (lhs_at, id) = match &lhs.node {
                    ExprKind::Ident(id) => match self.env.lookup_binding(id.as_str()) {
                        Some(t) => (t, id),
                        None => {
                            return self.report(TypeError::UnknownVariable { name: id.clone(), span: lhs.span });
                        },
                    },
                    _ => {
                        return self.report(TypeError::Assignment {
                            kind: AssignmentErrorKind::NotIdent,
                            span: lhs.span,
                            decl_span: lhs.span,
                        });
                    },
                };
                let expected = self.check_expr(rhs);
                let ty = self.try_unify(rhs.span, lhs_at.ty, expected);
                if lhs_at.mutable || !lhs_at.is_initialized {
                    self.env.define_binding(id.as_str(), AnnotatedType::new(ty, lhs_at.mutable, true, lhs_at.ty.span));
                    Ty::unit()
                } else {
                    self.report(TypeError::Assignment {
                        kind: AssignmentErrorKind::NotMutable,
                        span: lhs.span,
                        decl_span: lhs_at.decl_span,
                    })
                }
            },
            StatementKind::While(cond, block) => {
                let got = self.check_expr(cond);
                self.try_unify(cond.span, got, Ty::bool());
                self.check_block(block)
            },
            StatementKind::Expr(expr) => self.check_expr(expr),
            StatementKind::Fn(fn_decl) => {
                self.define_params(fn_decl);
                Ty::unit()
            },
        }
    }

    /// Binds each parameter of `fn_decl` in the innermost scope.
    fn define_params(&mut self, fn_decl: &'a FnDeclaration)
        requires
            old(self).env.wf(),
        ensures
            final(self).same_depth(old(self)),
            final(self).state() == define_params(old(self).state(), fn_decl@.params, fn_decl@.params.len() as int),
    {
        let n = fn_decl.parameters.0.len();
        let mut i: usize = 0;
        while i < n
            invariant
                n == fn_decl.parameters.0@.len(),
                i <= n,
                self.same_depth(old(self)),
                fn_decl@.params == fn_decl.parameters.0@.map_values(|p: crate::ast::Parameter| p@),
                self.state() == define_params(old(self).state(), fn_decl@.params, i as int),
            decreases n - i,
        {
            let p = &fn_decl.parameters.0[i];
            let a_ty = AnnotatedType::new(Ty { ty: Some(p.ty.node), span: p.ty.span }, p.mutable.0, true, p.span);
            self.env.define_binding(p.id.as_str(), a_ty);
            i = i + 1;
        }
    }

    /// The type of a block.
    pub fn check_block(&mut self, block: &'a Block) -> (t: Ty)
        requires
            old(self).env.wf(),
        ensures
            final(self).same_depth(old(self)),
            (t, final(self).state()) == tc_block(old(self).state(), block@),
        decreases block, 1nat,
    {
        let ghost st0 = self.state();
        let ghost stmts = block@.statements;
        self.env.push_scope();
        let n = block.statements.len();
        let mut i: usize = 0;
        while i < n
            invariant
                n == block.statements@.len(),
                i <= n,
                self.env.wf(),
                stmts == crate::ast::stmts_view(block.statements@),
                self.state() == (TcState {
                    scopes: TypeScopes {
                        bindings: st0.scopes.bindings.push(Map::empty()),
                        functions: hoist_into(st0.scopes.functions.push(Map::empty()), stmts, i as int),
                    },
                    errors: st0.errors,
                }),
                st0.scopes.functions.len() >= 1,
                hoist_into(st0.scopes.functions.push(Map::empty()), stmts, i as int).len() == st0.scopes.functions.len() + 1,
            decreases n - i,
        {
            match &block.statements[i].node {
                StatementKind::Fn(f) => {
                    self.env.define_function(f);
                },
                _ => {},
            }
            i = i + 1;
        }
        let ghost st1 = self.state();
        let mut last = Ty::unit();
        let mut i: usize = 0;
        while i < n
            invariant
                n == block.statements@.len(),
                i <= n,
                self.env.wf(),
                stmts == crate::ast::stmts_view(block.statements@),
                self.state().scopes.bindings.len() == st0.scopes.bindings.len() + 1,
                self.state().scopes.functions.len() == st0.scopes.functions.len() + 1,
                tc_stmts(st1, stmts, 0, Ty::spec_of(Type::Unit)) == tc_stmts(self.state(), stmts, i as int, last),
            decreases n - i,
        {
            assert(stmts[i as int] == block.statements@[i as int]@);
            last = self.check_stmt(&block.statements[i]);
            i = i + 1;
        }
        self.env.pop_scope();
        if block.semi {
            Ty::unit()
        } else {
            last
        }
    }

    fn check_call(&mut self, expr: &Expr, id: &String, arguments: &'a Arguments) -> (t: Ty)
        requires
            old(self).env.wf(),
        ensures
            final(self).same_depth(old(self)),
            (t, final(self).state()) == tc_call(old(self).state(), expr.span, id@, arguments@),
        decreases arguments, 1nat,
    {
        let ghost args = arguments@;
        let n = arguments.0.len();
        if is_println_name(id) {
            if n == 0 {
                self.report(TypeError::TypeMismatch { expected: Ty::string(), got: Ty::unit(), span: expr.span });
                return Ty::unit();
            }
            assert(args[0] == arguments.0@[0]@);
            let got = self.check_expr(&arguments.0[0]);
            self.try_unify(expr.span, got, Ty::string());
            let mut i: usize = 1;
            while i < n
                invariant
                    n == arguments.0@.len(),
                    1 <= i <= n,
                    self.same_depth(old(self)),
                    args == crate::ast::exprs_view(arguments.0@),
                    tc_call(old(self).state(), expr.span, id@, args) == (Ty::spec_of(Type::Unit), tc_println_rest(
                        self.state(),
                        args,
                        i as int,
                    )),
                decreases n - i,
            {
                assert(args[i as int] == arguments.0@[i as int]@);
                let got = self.check_expr(&arguments.0[i]);
                self.try_unify(arguments.0[i].span, got, Ty::i32());
                i = i + 1;
            }
            return Ty::unit();
        }
        let fn_decl = match self.env.lookup_function(id.as_str()) {
            Some(f) => f,
            None => {
                return self.report(TypeError::UnknownFunction { name: id.clone(), span: expr.span });
            },
        };
        let np = fn_decl.parameters.0.len();
        if np != n {
            return self.report(TypeError::ParameterArityMismatch {
                id: fn_decl.id.clone(),
                expected: np,
                got: n,
                call_span: expr.span,
                fn_span: fn_decl.span,
            });
        }
        let ghost ps = fn_decl@.params;
        let ghost r0 = tc_call_args(old(self).state(), ps, args, expr.span, 0);
        assert(tc_call(old(self).state(), expr.span, id@, args) == (if r0.0 { return_ty(fn_decl@) } else { Ty::spec_error() }, r0.1));
        let mut i: usize = 0;
        while i < n
            invariant
                n == arguments.0@.len(),
                np == n,
                ps.len() == n,
                i <= n,
                self.same_depth(old(self)),
                args == crate::ast::exprs_view(arguments.0@),
                ps == fn_decl.parameters.0@.map_values(|p: crate::ast::Parameter| p@),
                r0 == tc_call_args(self.state(), ps, args, expr.span, i as int),
                tc_call(old(self).state(), expr.span, id@, args) == (if r0.0 { return_ty(fn_decl@) } else { Ty::spec_error() }, r0.1),
            decreases n - i,
        {
            let param = &fn_decl.parameters.0[i];
            let binding = match self.env.lookup_binding(param.id.as_str()) {
                Some(b) => b,
                None => {
                    return self.report(TypeError::UnknownVariable { name: param.id.clone(), span: expr.span });
                },
            };
            assert(args[i as int] == arguments.0@[i as int]@);
            let expected = self.check_expr(&arguments.0[i]);
            self.try_unify(arguments.0[i].span, binding.ty, expected);
            i = i + 1;
        }
        match fn_decl.ty {
            Some(t) => Ty { ty: Some(t.node), span: t.span },
            None => Ty::unit(),
        }
    }

    /// Checks a function: its body must have its declared type.
    fn check_fn(&mut self, fn_decl: &'a FnDeclaration) -> (t: Ty)
        requires
            old(self).env.wf(),
        ensures
            final(self).same_depth(old(self)),
            (t, final(self).state()) == tc_fn(old(self).state(), fn_decl@),
    {
        let declared = match fn_decl.ty {
            Some(t) => Ty { ty: Some(t.node), span: t.span },
            None => Ty::unit(),
        };
        self.define_params(fn_decl);
        let body = self.check_block(&fn_decl.body);
        self.try_unify(fn_decl.span, declared, body)
    }

    /// Checks a program; its type is the declared type of `main`.
    pub fn check_prog(&mut self, prog: &'a Prog) -> (t: Ty)
        requires
            old(self).env.wf(),
        ensures
            final(self).env.wf(),
            (t, final(self).state()) == tc_prog(old(self).state(), prog@),
    {
        let ghost fs = prog@;
        let n = prog.0.len();
        let mut seen: StringHashMap<ErrRange> = StringHashMap::new();
        let mut i: usize = 0;
        while i < n
            invariant
                n == prog.0@.len(),
                i <= n,
                self.same_depth(old(self)),
                fs == prog.0@.map_values(|f: FnDeclaration| fn_view(f)),
                declare_fns(old(self).state(), fs, 0, Map::empty()) == declare_fns(self.state(), fs, i as int, seen@),
            decreases n - i,
        {
            let f = &prog.0[i];
            match seen.get(f.id.as_str()) {
                Some(first_span) => {
                    let first = *first_span;
                    return self.report(TypeError::Duplicate {
                        kind: DuplicateKind::Function,
                        name: f.id.clone(),
                        first_span: first,
                        second_span: f.span,
                    });
                },
                None => {},
            }
            seen.insert(f.id.clone(), f.span);
            self.env.define_function(f);
            i = i + 1;
        }
        let ghost st1 = self.state();
        let mut i: usize = 0;
        while i < n
            invariant
                n == prog.0@.len(),
                i <= n,
                self.env.wf(),
                fs == prog.0@.map_values(|f: FnDeclaration| fn_view(f)),
                self.state() == check_fns(st1, fs, i as int),
            decreases n - i,
        {
            self.check_fn(&prog.0[i]);
            i = i + 1;
        }
        proof {
            reveal_strlit("main");
            assert("main"@ =~= main_name());
        }
        match self.env.lookup_function("main") {
            Some(f) => match f.ty {
                Some(t) => Ty { ty: Some(t.node), span: t.span },
                None => Ty::unit(),
            },
            None => self.report(TypeError::UnknownFunction { name: "main".to_owned(), span: ErrRange::dummy() }),
        }
    }
}


impl<'a> Default for TypeChecker<'a> {
    fn default() -> (tc: Self)
        ensures
            tc.env.wf(),
            tc.state() == (TcState {
                scopes: TypeScopes { bindings: seq![Map::empty()], functions: seq![Map::empty()] },
                errors: seq![],
            }),
    {
        TypeChecker::new()
    }
}

} // verus!
