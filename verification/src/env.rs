use vstd::prelude::*;
use vstd::hash_map::StringHashMap;
use crate::ast::{FnDeclaration, SpecFnDecl, fn_view};
use crate::type_check::Ty;
use crate::vm::{SpecVal, Val};

verus! {

// ---------------------------------------------------------------------------
// The machine state of the evaluator, as mathematics

/// Scopes of values and of functions, innermost last, and the text printed so far.
pub struct Machine {
    pub values: Seq<Map<Seq<char>, SpecVal>>,
    pub functions: Seq<Map<Seq<char>, SpecFnDecl>>,
    pub out: Seq<char>,
}

/// A value as it is read: a `mut` binding gives the value it holds.
pub open spec fn strip_mut(v: SpecVal) -> SpecVal {
    match v {
        SpecVal::Mut(inner) => *inner,
        _ => v,
    }
}

/// The value bound to `name` in the innermost scope that binds it.
pub open spec fn lookup_value_in(values: Seq<Map<Seq<char>, SpecVal>>, name: Seq<char>) -> Option<SpecVal>
    decreases values.len(),
{
    if values.len() == 0 {
        None
    } else if values.last().contains_key(name) {
        Some(strip_mut(values.last()[name]))
    } else {
        lookup_value_in(values.drop_last(), name)
    }
}

/// The scopes after `name` is given the value `v` in the innermost scope that binds
/// it (inside the `mut` wrapper where there is one), or `None` where no scope does.
pub open spec fn assign_in(values: Seq<Map<Seq<char>, SpecVal>>, name: Seq<char>, v: SpecVal) -> Option<Seq<Map<Seq<char>, SpecVal>>>
    decreases values.len(),
{
    if values.len() == 0 {
        None
    } else if values.last().contains_key(name) {
        let new_v = match values.last()[name] {
            SpecVal::Mut(_) => SpecVal::Mut(Box::new(v)),
            _ => v,
        };
        Some(values.drop_last().push(values.last().insert(name, new_v)))
    } else {
        match assign_in(values.drop_last(), name, v) {
            Some(vs) => Some(vs.push(values.last())),
            None => None,
        }
    }
}

/// The innermost function scope that declares `name`, with its position.
pub open spec fn lookup_fn_in(fs: Seq<Map<Seq<char>, SpecFnDecl>>, name: Seq<char>) -> Option<(int, SpecFnDecl)>
    decreases fs.len(),
{
    if fs.len() == 0 {
        None
    } else if fs.last().contains_key(name) {
        Some(((fs.len() - 1) as int, fs.last()[name]))
    } else {
        lookup_fn_in(fs.drop_last(), name)
    }
}

/// The scopes with `k` bound to `v` in the innermost one.
pub open spec fn define_top<A>(scopes: Seq<Map<Seq<char>, A>>, k: Seq<char>, v: A) -> Seq<Map<Seq<char>, A>> {
    scopes.update(scopes.len() - 1, scopes.last().insert(k, v))
}

/// The sequence without its last element, as `Vec::pop` leaves it.
pub open spec fn pop_top<A>(s: Seq<A>) -> Seq<A> {
    if s.len() > 0 {
        s.drop_last()
    } else {
        s
    }
}

// ---------------------------------------------------------------------------
// The executable environment

pub open spec fn scope_view(m: StringHashMap<Val>) -> Map<Seq<char>, SpecVal> {
    m@.map_values(|v: Val| v@)
}

pub open spec fn fn_scope_view<'a>(m: StringHashMap<&'a FnDeclaration>) -> Map<Seq<char>, SpecFnDecl> {
    m@.map_values(|f: &'a FnDeclaration| fn_view(*f))
}

/// The scopes of an evaluation: values, and the function declarations of the
/// program that are in scope, innermost last; and what the program printed.
pub struct Env<'a> {
    pub values: Vec<StringHashMap<Val>>,
    pub functions: Vec<StringHashMap<&'a FnDeclaration>>,
    pub out: String,
}

proof fn lemma_scope_insert(m: StringHashMap<Val>, k: Seq<char>, v: Val, m2: StringHashMap<Val>)
    requires
        m2@ == m@.insert(k, v),
    ensures
        scope_view(m2) == scope_view(m).insert(k, v@),
{
    assert(scope_view(m2) =~= scope_view(m).insert(k, v@));
}

proof fn lemma_fn_scope_insert<'a>(m: StringHashMap<&'a FnDeclaration>, k: Seq<char>, f: &'a FnDeclaration, m2: StringHashMap<&'a FnDeclaration>)
    requires
        m2@ == m@.insert(k, f),
    ensures
        fn_scope_view(m2) == fn_scope_view(m).insert(k, fn_view(*f)),
{
    assert(fn_scope_view(m2) =~= fn_scope_view(m).insert(k, fn_view(*f)));
}

impl<'a> Env<'a> {
    pub open spec fn machine(&self) -> Machine {
        Machine {
            values: self.values@.map_values(|m: StringHashMap<Val>| scope_view(m)),
            functions: self.functions@.map_values(|m: StringHashMap<&'a FnDeclaration>| fn_scope_view(m)),
            out: self.out@,
        }
    }

    /// There is an innermost scope of each kind.
    pub open spec fn wf(&self) -> bool {
        self.values@.len() >= 1 && self.functions@.len() >= 1
    }

    /// An environment with one empty scope of each kind.
    pub fn new() -> (e: Self)
        ensures
            e.wf(),
            e.machine() == (Machine { values: seq![Map::empty()], functions: seq![Map::empty()], out: seq![] }),
    {
        let e = Env { values: vec![StringHashMap::new()], functions: vec![StringHashMap::new()], out: String::new() };
        assert(e.machine().values =~= seq![Map::<Seq<char>, SpecVal>::empty()]) by {
            assert(scope_view(e.values@[0]) =~= Map::empty());
        }
        assert(e.machine().functions =~= seq![Map::<Seq<char>, SpecFnDecl>::empty()]) by {
            assert(fn_scope_view(e.functions@[0]) =~= Map::empty());
        }
        e
    }

    /// Opens an empty scope of each kind.
    pub fn push_scope(&mut self)
        ensures
            final(self).machine() == (Machine {
                values: old(self).machine().values.push(Map::empty()),
                functions: old(self).machine().functions.push(Map::empty()),
                out: old(self).machine().out,
            }),
            old(self).wf() ==> final(self).wf(),
            final(self).values@.len() == old(self).values@.len() + 1,
            final(self).functions@.len() == old(self).functions@.len() + 1,
    {
        self.values.push(StringHashMap::new());
        self.functions.push(StringHashMap::new());
        assert(self.machine().values =~= old(self).machine().values.push(Map::empty())) by {
            assert(scope_view(self.values@.last()) =~= Map::empty());
        }
        assert(self.machine().functions =~= old(self).machine().functions.push(Map::empty())) by {
            assert(fn_scope_view(self.functions@.last()) =~= Map::empty());
        }
    }

    /// Closes the innermost scope of each kind.
    pub fn pop_scope(&mut self)
        ensures
            final(self).machine() == (Machine {
                values: pop_top(old(self).machine().values),
                functions: pop_top(old(self).machine().functions),
                out: old(self).machine().out,
            }),
            final(self).values@ == pop_top(old(self).values@),
            final(self).functions@ == pop_top(old(self).functions@),
    {
        self.values.pop();
        self.functions.pop();
        assert(self.machine().values =~= pop_top(old(self).machine().values));
        assert(self.machine().functions =~= pop_top(old(self).machine().functions));
    }

    /// The value of `name` in the innermost scope that binds it, seen through `mut`.
    pub fn lookup_value(&self, name: &str) -> (r: Option<Val>)
        ensures
            match r {
                Some(v) => lookup_value_in(self.machine().values, name@) == Some(v@),
                None => lookup_value_in(self.machine().values, name@) is None,
            },
    {
        let ghost vs = self.machine().values;
        let mut i = self.values.len();
        assert(vs.subrange(0, i as int) =~= vs);
        while i > 0
            invariant
                i <= self.values@.len(),
                vs == self.machine().values,
                lookup_value_in(vs, name@) == lookup_value_in(vs.subrange(0, i as int), name@),
            decreases i,
        {
            let ghost pre = vs.subrange(0, i as int);
            assert(pre.drop_last() =~= vs.subrange(0, i - 1));
            match self.values[i - 1].get(name) {
                Some(v) => {
                    return match v {
                        Val::Mut(inner) => Some(inner.copy()),
                        _ => Some(v.copy()),
                    };
                },
                None => {
                    i = i - 1;
                },
            }
        }
        None
    }

    /// The innermost value scope that binds `name`, with its position, for changing
    /// the binding in place. Scopes hold their values in `StringHashMap`s, which give
    /// no mutable access to a single value, so the whole scope is handed out.
    pub fn lookup_value_mut(&mut self, name: &str) -> (r: Option<(usize, &mut StringHashMap<Val>)>)
        ensures
            match r {
                Some((i, scope)) => {
                    &&& i < old(self).values@.len()
                    &&& *scope == old(self).values@[i as int]
                    &&& scope@.contains_key(name@)
                    &&& forall|j: int| i < j < old(self).values@.len() ==> !(#[trigger] old(self).values@[j])@.contains_key(name@)
                    &&& final(self).values@ == old(self).values@.update(i as int, *final(scope))
                    &&& final(self).functions@ == old(self).functions@
                    &&& final(self).out@ == old(self).out@
                },
                None => {
                    &&& forall|j: int| 0 <= j < old(self).values@.len() ==> !(#[trigger] old(self).values@[j])@.contains_key(name@)
                    &&& final(self).values@ == old(self).values@
                    &&& final(self).functions@ == old(self).functions@
                    &&& final(self).out@ == old(self).out@
                },
            },
    {
        let mut i = self.values.len();
        while i > 0
            invariant
                i <= self.values@.len(),
                self.values@ == old(self).values@,
                self.functions@ == old(self).functions@,
                self.out@ == old(self).out@,
                forall|j: int| i <= j < self.values@.len() ==> !(#[trigger] self.values@[j])@.contains_key(name@),
            decreases i,
        {
            if self.values[i - 1].contains_key(name) {
                let k = i - 1;
                return Some((k, &mut self.values[k]));
            }
            i = i - 1;
        }
        None
    }

    /// Binds `id` to `val` in the innermost value scope.
    pub fn define_value(&mut self, id: &str, val: Val)
        requires
            old(self).wf(),
        ensures
            final(self).wf(),
            final(self).machine() == (Machine {
                values: define_top(old(self).machine().values, id@, val@),
                functions: old(self).machine().functions,
                out: old(self).machine().out,
            }),
            final(self).values@.len() == old(self).values@.len(),
            final(self).functions@ == old(self).functions@,
    {
        let n = self.values.len();
        let ghost m0 = self.values@[n - 1];
        let ghost v = val@;
        self.values[n - 1].insert(id.to_owned(), val);
        proof {
            lemma_scope_insert(m0, id@, val, self.values@[n - 1]);
            assert(self.machine().values =~= define_top(old(self).machine().values, id@, v));
        }
    }

    /// Gives `id` the value `new_val` in the innermost scope that binds it, inside
    /// its `mut` wrapper where it has one; false where no scope binds `id`.
    pub fn assign_value(&mut self, id: &str, new_val: Val) -> (found: bool)
        ensures
            match assign_in(old(self).machine().values, id@, new_val@) {
                Some(vs) => found && final(self).machine().values == vs,
                None => !found && final(self).machine().values == old(self).machine().values,
            },
            final(self).values@.len() == old(self).values@.len(),
            final(self).functions@ == old(self).functions@,
            final(self).out == old(self).out,
    {
        let ghost vs = old(self).machine().values;
        let ghost nv = new_val@;
        let mut i = self.values.len();
        while i > 0
            invariant
                i <= self.values@.len(),
                self.values@ == old(self).values@,
                self.functions@ == old(self).functions@,
                self.out == old(self).out,
                vs == self.machine().values,
                nv == new_val@,
                forall|j: int| i <= j < vs.len() ==> !(#[trigger] vs[j]).contains_key(id@),
            decreases i,
        {
            let found = match self.values[i - 1].get(id) {
                Some(existing) => Some(match existing {
                    Val::Mut(_) => Val::Mut(Box::new(new_val.copy())),
                    _ => new_val.copy(),
                }),
                None => None,
            };
            match found {
                Some(stored) => {
                    let ghost m0 = self.values@[i - 1];
                    self.values[i - 1].insert(id.to_owned(), stored);
                    proof {
                        lemma_scope_insert(m0, id@, stored, self.values@[i - 1]);
                        lemma_assign_at(vs, id@, nv, i - 1);
                        assert(self.machine().values =~= vs.update(i - 1, vs[i - 1].insert(id@, stored@)));
                    }
                    return true;
                },
                None => {
                    i = i - 1;
                },
            }
        }
        proof {
            lemma_assign_none(vs, id@, nv);
        }
        false
    }

    /// The innermost declaration of `name`, with the position of its scope.
    pub fn lookup_fn(&self, name: &str) -> (r: Option<(usize, &'a FnDeclaration)>)
        ensures
            match r {
                Some((i, f)) => lookup_fn_in(self.machine().functions, name@) == Some((i as int, fn_view(*f)))
                    && i < self.functions@.len(),
                None => lookup_fn_in(self.machine().functions, name@) is None,
            },
    {
        let ghost fs = self.machine().functions;
        let mut i = self.functions.len();
        assert(fs.subrange(0, i as int) =~= fs);
        while i > 0
            invariant
                i <= self.functions@.len(),
                fs == self.machine().functions,
                lookup_fn_in(fs, name@) == lookup_fn_in(fs.subrange(0, i as int), name@),
            decreases i,
        {
            let ghost pre = fs.subrange(0, i as int);
            assert(pre.drop_last() =~= fs.subrange(0, i - 1));
            match self.functions[i - 1].get(name) {
                Some(f) => {
                    return Some((i - 1, *f));
                },
                None => {
                    i = i - 1;
                },
            }
        }
        None
    }

    /// Appends `text` to what was printed.
    pub fn print(&mut self, text: &String)
        ensures
            final(self).machine() == (Machine {
                values: old(self).machine().values,
                functions: old(self).machine().functions,
                out: old(self).machine().out + text@,
            }),
            final(self).values@ == old(self).values@,
            final(self).functions@ == old(self).functions@,
    {
        crate::text::push_string(&mut self.out, text);
    }

    /// Declares `f` in the innermost function scope.
    pub fn define_fn(&mut self, f: &'a FnDeclaration)
        requires
            old(self).wf(),
        ensures
            final(self).wf(),
            final(self).machine() == (Machine {
                values: old(self).machine().values,
                functions: define_top(old(self).machine().functions, f.id@, fn_view(*f)),
                out: old(self).machine().out,
            }),
            final(self).values@ == old(self).values@,
            final(self).functions@.len() == old(self).functions@.len(),
    {
        let n = self.functions.len();
        let ghost m0 = self.functions@[n - 1];
        self.functions[n - 1].insert(f.id.clone(), f);
        proof {
            lemma_fn_scope_insert(m0, f.id@, f, self.functions@[n - 1]);
            assert(self.machine().functions =~= define_top(old(self).machine().functions, f.id@, fn_view(*f)));
        }
    }
}

proof fn lemma_assign_at(vs: Seq<Map<Seq<char>, SpecVal>>, name: Seq<char>, v: SpecVal, k: int)
    requires
        0 <= k < vs.len(),
        vs[k].contains_key(name),
        forall|j: int| k < j < vs.len() ==> !(#[trigger] vs[j]).contains_key(name),
    ensures
        assign_in(vs, name, v) == Some(vs.update(k, vs[k].insert(name, match vs[k][name] {
            SpecVal::Mut(_) => SpecVal::Mut(Box::new(v)),
            _ => v,
        }))),
    decreases vs.len(),
{
    if k == vs.len() - 1 {
        assert(vs.drop_last().push(vs.last().insert(name, match vs[k][name] {
            SpecVal::Mut(_) => SpecVal::Mut(Box::new(v)),
            _ => v,
        })) =~= vs.update(k, vs[k].insert(name, match vs[k][name] {
            SpecVal::Mut(_) => SpecVal::Mut(Box::new(v)),
            _ => v,
        })));
    } else {
        let pre = vs.drop_last();
        assert(!vs.last().contains_key(name));
        lemma_assign_at(pre, name, v, k);
        assert(pre.update(k, pre[k].insert(name, match pre[k][name] {
            SpecVal::Mut(_) => SpecVal::Mut(Box::new(v)),
            _ => v,
        })).push(vs.last()) =~= vs.update(k, vs[k].insert(name, match vs[k][name] {
            SpecVal::Mut(_) => SpecVal::Mut(Box::new(v)),
            _ => v,
        })));
    }
}

proof fn lemma_assign_none(vs: Seq<Map<Seq<char>, SpecVal>>, name: Seq<char>, v: SpecVal)
    requires
        forall|j: int| 0 <= j < vs.len() ==> !(#[trigger] vs[j]).contains_key(name),
    ensures
        assign_in(vs, name, v) is None,
    decreases vs.len(),
{
    if vs.len() > 0 {
        assert(!vs[vs.len() - 1].contains_key(name));
        let pre = vs.drop_last();
        assert forall|j: int| 0 <= j < pre.len() implies !(#[trigger] pre[j]).contains_key(name) by {
            assert(pre[j] == vs[j]);
        }
        lemma_assign_none(pre, name, v);
    }
}

// ---------------------------------------------------------------------------
// The scopes of the type checker

/// What the type checker knows of a binding.
#[derive(Debug, Clone, Copy, PartialEq, Eq, Structural)]
pub struct AnnotatedType {
    pub ty: Ty,
    pub mutable: bool,
    pub is_initialized: bool,
    pub decl_span: crate::error::ErrRange,
}

impl AnnotatedType {
    pub fn new(ty: Ty, mutable: bool, is_initialized: bool, decl_span: crate::error::ErrRange) -> (a: AnnotatedType)
        ensures
            a == (AnnotatedType { ty, mutable, is_initialized, decl_span }),
    {
        AnnotatedType { ty, mutable, is_initialized, decl_span }
    }
}

/// Scopes of bindings and of functions, innermost last.
pub struct TypeScopes {
    pub bindings: Seq<Map<Seq<char>, AnnotatedType>>,
    pub functions: Seq<Map<Seq<char>, SpecFnDecl>>,
}

/// The binding of `id` in the innermost scope that has one.
pub open spec fn lookup_binding_in(bs: Seq<Map<Seq<char>, AnnotatedType>>, id: Seq<char>) -> Option<AnnotatedType>
    decreases bs.len(),
{
    if bs.len() == 0 {
        None
    } else if bs.last().contains_key(id) {
        Some(bs.last()[id])
    } else {
        lookup_binding_in(bs.drop_last(), id)
    }
}

/// The declaration of `id` in the innermost scope that has one.
pub open spec fn lookup_function_in(fs: Seq<Map<Seq<char>, SpecFnDecl>>, id: Seq<char>) -> Option<SpecFnDecl>
    decreases fs.len(),
{
    if fs.len() == 0 {
        None
    } else if fs.last().contains_key(id) {
        Some(fs.last()[id])
    } else {
        lookup_function_in(fs.drop_last(), id)
    }
}

/// The scopes of the type checker: a block opens a scope of bindings and a scope of
/// functions, and what it declares in them is gone after it.
pub struct TypeEnv<'a> {
    bindings: Vec<StringHashMap<AnnotatedType>>,
    functions: Vec<StringHashMap<&'a FnDeclaration>>,
}

impl<'a> TypeEnv<'a> {
    pub closed spec fn scopes(&self) -> TypeScopes {
        TypeScopes {
            bindings: self.bindings@.map_values(|m: StringHashMap<AnnotatedType>| m@),
            functions: self.functions@.map_values(|m: StringHashMap<&'a FnDeclaration>| fn_scope_view(m)),
        }
    }

    /// There is an innermost scope of each kind.
    pub open spec fn wf(&self) -> bool {
        self.scopes().bindings.len() >= 1 && self.scopes().functions.len() >= 1
    }

    pub fn new() -> (e: Self)
        ensures
            e.wf(),
            e.scopes() == (TypeScopes { bindings: seq![Map::empty()], functions: seq![Map::empty()] }),
    {
        let e = TypeEnv { bindings: vec![StringHashMap::new()], functions: vec![StringHashMap::new()] };
        assert(e.scopes().bindings =~= seq![Map::<Seq<char>, AnnotatedType>::empty()]);
        assert(e.scopes().functions =~= seq![Map::<Seq<char>, SpecFnDecl>::empty()]) by {
            assert(fn_scope_view(e.functions@[0]) =~= Map::empty());
        }
        e
    }

    /// Opens an empty scope of bindings and an empty scope of functions.
    pub fn push_scope(&mut self)
        ensures
            old(self).wf() ==> final(self).wf(),
            final(self).scopes() == (TypeScopes {
                bindings: old(self).scopes().bindings.push(Map::empty()),
                functions: old(self).scopes().functions.push(Map::empty()),
            }),
    {
        self.bindings.push(StringHashMap::new());
        self.functions.push(StringHashMap::new());
        assert(self.scopes().bindings =~= old(self).scopes().bindings.push(Map::empty()));
        assert(self.scopes().functions =~= old(self).scopes().functions.push(Map::empty())) by {
            assert(fn_scope_view(self.functions@.last()) =~= Map::empty());
        }
    }

    /// Closes the innermost scope of bindings and the innermost scope of functions.
    pub fn pop_scope(&mut self)
        ensures
            old(self).scopes().bindings.len() >= 2 && old(self).scopes().functions.len() >= 2 ==> final(self).wf(),
            final(self).scopes() == (TypeScopes {
                bindings: pop_top(old(self).scopes().bindings),
                functions: pop_top(old(self).scopes().functions),
            }),
    {
        self.bindings.pop();
        self.functions.pop();
        assert(self.scopes().bindings =~= pop_top(old(self).scopes().bindings));
        assert(self.scopes().functions =~= pop_top(old(self).scopes().functions));
    }

    /// The binding of `id` in the innermost scope that has one.
    pub fn lookup_binding(&self, id: &str) -> (r: Option<AnnotatedType>)
        ensures
            r == lookup_binding_in(self.scopes().bindings, id@),
    {
        let ghost bs = self.scopes().bindings;
        let mut i = self.bindings.len();
        assert(bs.subrange(0, i as int) =~= bs);
        while i > 0
            invariant
                i <= self.bindings@.len(),
                bs == self.scopes().bindings,
                lookup_binding_in(bs, id@) == lookup_binding_in(bs.subrange(0, i as int), id@),
            decreases i,
        {
            assert(bs.subrange(0, i as int).drop_last() =~= bs.subrange(0, i - 1));
            match self.bindings[i - 1].get(id) {
                Some(a) => {
                    return Some(*a);
                },
                None => {
                    i = i - 1;
                },
            }
        }
        None
    }

    /// The declaration of `id` in the innermost scope that has one.
    pub fn lookup_function(&self, id: &str) -> (r: Option<&'a FnDeclaration>)
        ensures
            match r {
                Some(f) => lookup_function_in(self.scopes().functions, id@) == Some(fn_view(*f)),
                None => lookup_function_in(self.scopes().functions, id@) is None,
            },
    {
        let ghost fs = self.scopes().functions;
        let mut i = self.functions.len();
        assert(fs.subrange(0, i as int) =~= fs);
        while i > 0
            invariant
                i <= self.functions@.len(),
                fs == self.scopes().functions,
                lookup_function_in(fs, id@) == lookup_function_in(fs.subrange(0, i as int), id@),
            decreases i,
        {
            assert(fs.subrange(0, i as int).drop_last() =~= fs.subrange(0, i - 1));
            match self.functions[i - 1].get(id) {
                Some(f) => {
                    return Some(*f);
                },
                None => {
                    i = i - 1;
                },
            }
        }
        None
    }

    /// Binds `id` in the innermost scope of bindings.
    pub fn define_binding(&mut self, id: &str, a_ty: AnnotatedType)
        requires
            old(self).wf(),
        ensures
            final(self).wf(),
            final(self).scopes() == (TypeScopes {
                bindings: define_top(old(self).scopes().bindings, id@, a_ty),
                functions: old(self).scopes().functions,
            }),
    {
        let n = self.bindings.len();
        self.bindings[n - 1].insert(id.to_owned(), a_ty);
        assert(self.scopes().bindings =~= define_top(old(self).scopes().bindings, id@, a_ty));
        assert(self.scopes().functions =~= old(self).scopes().functions);
    }

    /// Declares `fn_decl` in the innermost scope of functions.
    pub fn define_function(&mut self, fn_decl: &'a FnDeclaration)
        requires
            old(self).wf(),
        ensures
            final(self).wf(),
            final(self).scopes() == (TypeScopes {
                bindings: old(self).scopes().bindings,
                functions: define_top(old(self).scopes().functions, fn_decl.id@, fn_view(*fn_decl)),
            }),
    {
        let n = self.functions.len();
        let ghost m0 = self.functions@[n - 1];
        self.functions[n - 1].insert(fn_decl.id.clone(), fn_decl);
        proof {
            lemma_fn_scope_insert(m0, fn_decl.id@, fn_decl, self.functions@[n - 1]);
        }
        assert(self.scopes().functions =~= define_top(old(self).scopes().functions, fn_decl.id@, fn_view(*fn_decl)));
        assert(self.scopes().bindings =~= old(self).scopes().bindings);
    }
}


impl<'a> Default for Env<'a> {
    fn default() -> (e: Self)
        ensures
            e.wf(),
            e.machine() == (Machine { values: seq![Map::empty()], functions: seq![Map::empty()], out: seq![] }),
    {
        Env::new()
    }
}

impl<'a> Default for TypeEnv<'a> {
    fn default() -> (e: Self)
        ensures
            e.wf(),
            e.scopes() == (TypeScopes { bindings: seq![Map::empty()], functions: seq![Map::empty()] }),
    {
        TypeEnv::new()
    }
}

} // verus!
