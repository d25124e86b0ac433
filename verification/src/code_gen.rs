use vstd::prelude::*;
use vstd::hash_map::StringHashMap;
use crate::ast::{
    Arguments, BinOp, Block, Expr, ExprKind, FnDeclaration, Literal, Prog, SpecBlock, SpecExpr,
    SpecExprKind, SpecFnDecl, SpecLiteral, SpecParam, SpecStatement, SpecStmtKind, Statement,
    StatementKind, Type, TypeExpr, UnOp, fn_view,
};
use crate::display::expr_text;
use crate::env::{define_top, pop_top};
use crate::error::{CodeGenError, Error, SpecCodeGenError};
use crate::lexer::push_char;
use crate::text::{int_text, push_i32, push_str, push_string};
use crate::vm::main_name;

verus! {

// ---------------------------------------------------------------------------
// Instructions of the target: a stack machine on MIPS registers

/// A register that the generated code uses.
#[derive(Debug, Clone, Copy, PartialEq, Eq, Structural)]
pub enum Reg {
    Zero,
    T0,
    T1,
    Sp,
    Fp,
    Ra,
}

/// An operation, with `L` the type of a label operand.
///
/// Register operands come in assembler order: the destination first for the
/// three-register and immediate forms; value, offset and base for loads and stores.
#[derive(Debug, Clone, PartialEq, Eq)]
pub enum Op<L> {
    Add(Reg, Reg, Reg),
    Addu(Reg, Reg, Reg),
    Sub(Reg, Reg, Reg),
    Subu(Reg, Reg, Reg),
    And(Reg, Reg, Reg),
    Or(Reg, Reg, Reg),
    Slt(Reg, Reg, Reg),
    Addi(Reg, Reg, i16),
    Addiu(Reg, Reg, i16),
    Xori(Reg, Reg, i16),
    Lw(Reg, i16, Reg),
    Sw(Reg, i16, Reg),
    Beq(Reg, Reg, L),
    B(L),
    Bal(L),
    Jr(Reg),
    Halt,
}

/// An instruction, with the label that marks it, if any.
#[derive(Debug, Clone, PartialEq, Eq)]
pub struct Instr {
    pub op: Op<String>,
    pub label: Option<String>,
}

/// The mathematical counterpart of [`Instr`].
pub struct SpecInstr {
    pub op: Op<Seq<char>>,
    pub label: Option<Seq<char>>,
}

pub open spec fn op_view(o: Op<String>) -> Op<Seq<char>> {
    match o {
        Op::Add(a, b, c) => Op::Add(a, b, c),
        Op::Addu(a, b, c) => Op::Addu(a, b, c),
        Op::Sub(a, b, c) => Op::Sub(a, b, c),
        Op::Subu(a, b, c) => Op::Subu(a, b, c),
        Op::And(a, b, c) => Op::And(a, b, c),
        Op::Or(a, b, c) => Op::Or(a, b, c),
        Op::Slt(a, b, c) => Op::Slt(a, b, c),
        Op::Addi(a, b, i) => Op::Addi(a, b, i),
        Op::Addiu(a, b, i) => Op::Addiu(a, b, i),
        Op::Xori(a, b, i) => Op::Xori(a, b, i),
        Op::Lw(a, i, b) => Op::Lw(a, i, b),
        Op::Sw(a, i, b) => Op::Sw(a, i, b),
        Op::Beq(a, b, l) => Op::Beq(a, b, l@),
        Op::B(l) => Op::B(l@),
        Op::Bal(l) => Op::Bal(l@),
        Op::Jr(a) => Op::Jr(a),
        Op::Halt => Op::Halt,
    }
}

impl View for Instr {
    type V = SpecInstr;

    open spec fn view(&self) -> SpecInstr {
        SpecInstr {
            op: op_view(self.op),
            label: match self.label {
                Some(l) => Some(l@),
                None => None,
            },
        }
    }
}

pub open spec fn instrs_view(v: Seq<Instr>) -> Seq<SpecInstr> {
    v.map_values(|i: Instr| i@)
}

/// An unlabelled instruction.
pub open spec fn plain(op: Op<Seq<char>>) -> SpecInstr {
    SpecInstr { op, label: None }
}

/// An instruction that does nothing, carrying the label `l`.
pub open spec fn nop_at(l: Seq<char>) -> SpecInstr {
    SpecInstr { op: Op::Addu(Reg::Zero, Reg::Zero, Reg::Zero), label: Some(l) }
}

/// Pushes register `r` on the stack.
pub open spec fn push_code(r: Reg) -> Seq<SpecInstr> {
    seq![plain(Op::Addiu(Reg::Sp, Reg::Sp, -4i16)), plain(Op::Sw(r, 0, Reg::Sp))]
}

/// Pops the top of the stack into register `r`.
pub open spec fn pop_code(r: Reg) -> Seq<SpecInstr> {
    seq![plain(Op::Lw(r, 0, Reg::Sp)), plain(Op::Addiu(Reg::Sp, Reg::Sp, 4))]
}

/// Pushes unit (zero).
pub open spec fn unit_code() -> Seq<SpecInstr> {
    seq![plain(Op::Addi(Reg::T0, Reg::Zero, 0))] + push_code(Reg::T0)
}

/// Pushes unit where a block ends with `;`.
pub open spec fn semi_unit(semi: bool) -> Seq<SpecInstr> {
    if semi { unit_code() } else { seq![] }
}

/// The label of the `n`-th local jump target named `id`.
pub open spec fn local_label_text(n: i16, id: Seq<char>) -> Seq<char> {
    "label_"@ + int_text(n as int) + "_"@ + id
}

/// The label of a function: `main` keeps its name, the others are numbered.
pub open spec fn fn_label_text(n: i16, id: Seq<char>) -> Seq<char> {
    if id == main_name() {
        id
    } else {
        "fn_"@ + int_text(n as int) + "_"@ + id
    }
}

// ---------------------------------------------------------------------------
// The state of code generation, as mathematics

/// The instructions so far; the stack offsets of the names in scope (innermost
/// scope last), relative to the frame pointer; the label of each name; the
/// offset the next local gets; the locals of the current function; the labels made.
pub struct CgState {
    pub instrs: Seq<SpecInstr>,
    pub values: Seq<Map<Seq<char>, i16>>,
    pub labels: Map<Seq<char>, Seq<char>>,
    pub stack_offset: i16,
    pub fn_local_count: i16,
    pub label_count: i16,
}

/// The state before any code is generated.
pub open spec fn initial_cg() -> CgState {
    CgState {
        instrs: seq![],
        values: seq![Map::empty()],
        labels: Map::empty(),
        stack_offset: -4i16,
        fn_local_count: 0,
        label_count: 0,
    }
}

pub open spec fn emit(s: CgState, is: Seq<SpecInstr>) -> CgState {
    CgState { instrs: s.instrs + is, ..s }
}

/// The stack offset of `name` in the innermost scope that has it.
pub open spec fn lookup_offset_in(values: Seq<Map<Seq<char>, i16>>, name: Seq<char>) -> Option<i16>
    decreases values.len(),
{
    if values.len() == 0 {
        None
    } else if values.last().contains_key(name) {
        Some(values.last()[name])
    } else {
        lookup_offset_in(values.drop_last(), name)
    }
}

pub open spec fn lookup_label_in(labels: Map<Seq<char>, Seq<char>>, name: Seq<char>) -> Option<Seq<char>> {
    if labels.contains_key(name) {
        Some(labels[name])
    } else {
        None
    }
}

/// A fresh local label for `id`, and the state that records it.
pub open spec fn define_label_spec(s: CgState, id: Seq<char>) -> Result<(Seq<char>, CgState), SpecCodeGenError> {
    if s.label_count == i16::MAX {
        Err(SpecCodeGenError::Overflow)
    } else {
        let l = local_label_text(s.label_count, id);
        Ok((l, CgState { labels: s.labels.insert(id, l), label_count: (s.label_count + 1) as i16, ..s }))
    }
}

/// The state that gives function `id` its label.
pub open spec fn define_fn_label_spec(s: CgState, id: Seq<char>) -> Result<CgState, SpecCodeGenError> {
    if s.label_count == i16::MAX {
        Err(SpecCodeGenError::Overflow)
    } else {
        let n = (s.label_count + 1) as i16;
        Ok(CgState { labels: s.labels.insert(id, fn_label_text(n, id)), label_count: n, ..s })
    }
}

/// The state that gives local `id` the next stack slot of the frame.
pub open spec fn define_value_spec(s: CgState, id: Seq<char>) -> Result<CgState, SpecCodeGenError> {
    if s.stack_offset < -32764 || s.fn_local_count == i16::MAX {
        Err(SpecCodeGenError::Overflow)
    } else {
        Ok(CgState {
            values: define_top(s.values, id, s.stack_offset),
            stack_offset: (s.stack_offset - 4) as i16,
            fn_local_count: (s.fn_local_count + 1) as i16,
            ..s
        })
    }
}

/// The instruction that loads a literal into `t0`; none for a string.
pub open spec fn lit_op(l: SpecLiteral) -> Option<Op<Seq<char>>> {
    match l {
        SpecLiteral::Bool(b) => Some(Op::Addi(Reg::T0, Reg::Zero, if b { 1 } else { 0 })),
        SpecLiteral::Int(i) => Some(Op::Addi(Reg::T0, Reg::Zero, i as i16)),
        SpecLiteral::Unit => Some(Op::Add(Reg::T0, Reg::Zero, Reg::Zero)),
        SpecLiteral::String(_) => None,
    }
}

/// The instruction of a binary operator other than `==`, on `t0` and `t1`.
pub open spec fn binop_op(op: BinOp) -> Op<Seq<char>> {
    match op {
        BinOp::Add => Op::Add(Reg::T0, Reg::T0, Reg::T1),
        BinOp::Sub => Op::Sub(Reg::T0, Reg::T0, Reg::T1),
        BinOp::And => Op::And(Reg::T0, Reg::T0, Reg::T1),
        BinOp::Or => Op::Or(Reg::T0, Reg::T0, Reg::T1),
        BinOp::Lt => Op::Slt(Reg::T0, Reg::T0, Reg::T1),
        _ => Op::Slt(Reg::T0, Reg::T1, Reg::T0),
    }
}

/// The instruction of a unary operator on `t0`.
pub open spec fn unop_op(op: UnOp) -> Op<Seq<char>> {
    match op {
        UnOp::Neg => Op::Subu(Reg::T0, Reg::Zero, Reg::T0),
        UnOp::Bang => Op::Xori(Reg::T0, Reg::T0, 1),
    }
}

// ---------------------------------------------------------------------------
// The executable environment

/// The state of code generation: the instructions, the stack offsets of the
/// names in scope, the labels, and the counters of the current frame and of labels.
pub struct CodeGenEnv {
    instructions: Vec<Instr>,
    values: Vec<StringHashMap<i16>>,
    labels: StringHashMap<String>,
    stack_offset: i16,
    fn_local_count: i16,
    label_count: i16,
}

fn mk(op: Op<String>) -> (i: Instr)
    ensures
        i@ == plain(op_view(op)),
{
    Instr { op, label: None }
}

fn is_main(s: &str) -> (b: bool)
    ensures
        b == (s@ == main_name()),
{
    let p = "main".to_owned();
    let q = s.to_owned();
    proof {
        reveal_strlit("main");
        assert(p@ =~= main_name());
    }
    q == p
}

impl CodeGenEnv {
    pub closed spec fn state(&self) -> CgState {
        CgState {
            instrs: instrs_view(self.instructions@),
            values: self.values@.map_values(|m: StringHashMap<i16>| m@),
            labels: self.labels@.map_values(|l: String| l@),
            stack_offset: self.stack_offset,
            fn_local_count: self.fn_local_count,
            label_count: self.label_count,
        }
    }

    /// There is an innermost scope; the counters are not negative.
    pub closed spec fn wf(&self) -> bool {
        &&& self.values@.len() >= 1
        &&& self.label_count >= 0
        &&& self.fn_local_count >= 0
    }

    /// An environment with no instructions, one empty scope and the frame empty.
    pub fn new() -> (e: Self)
        ensures
            e.wf(),
            e.state() == initial_cg(),
    {
        let e = CodeGenEnv {
            instructions: Vec::new(),
            values: vec![StringHashMap::new()],
            labels: StringHashMap::new(),
            stack_offset: -4i16,
            fn_local_count: 0,
            label_count: 0,
        };
        assert(e.state().instrs =~= seq![]);
        assert(e.state().values =~= seq![Map::<Seq<char>, i16>::empty()]) by {
            assert(e.values@[0]@ =~= Map::empty());
        }
        assert(e.state().labels =~= Map::empty());
        e
    }

    /// The instructions generated so far.
    pub fn instructions(&self) -> (v: &Vec<Instr>)
        ensures
            instrs_view(v@) == self.state().instrs,
    {
        &self.instructions
    }

    fn enter_scope(&mut self)
        ensures
            final(self).state() == (CgState { values: old(self).state().values.push(Map::empty()), ..old(self).state() }),
            old(self).wf() ==> final(self).wf(),
            final(self).state().values.len() == old(self).state().values.len() + 1,
    {
        self.values.push(StringHashMap::new());
        assert(self.state().values =~= old(self).state().values.push(Map::empty())) by {
            assert(self.values@.last()@ =~= Map::empty());
        }
    }

    fn exit_scope(&mut self)
        ensures
            final(self).state() == (CgState { values: pop_top(old(self).state().values), ..old(self).state() }),
            final(self).state().values.len() == pop_top(old(self).state().values).len(),
            final(self).label_count == old(self).label_count,
            final(self).fn_local_count == old(self).fn_local_count,
    {
        self.values.pop();
        assert(self.state().values =~= pop_top(old(self).state().values));
    }

    fn add_instr(&mut self, instr: Instr)
        ensures
            final(self).state() == emit(old(self).state(), seq![instr@]),
            old(self).wf() ==> final(self).wf(),
            final(self).state().values.len() == old(self).state().values.len(),
    {
        self.instructions.push(instr);
        assert(self.state().instrs =~= old(self).state().instrs + seq![instr@]);
    }

    fn add_nop_with_label(&mut self, label: &String)
        ensures
            final(self).state() == emit(old(self).state(), seq![nop_at(label@)]),
            old(self).wf() ==> final(self).wf(),
            final(self).state().values.len() == old(self).state().values.len(),
    {
        let i = Instr { op: Op::Addu(Reg::Zero, Reg::Zero, Reg::Zero), label: Some(label.clone()) };
        self.add_instr(i);
    }

    fn push_to_stack(&mut self, rt: Reg)
        ensures
            final(self).state() == emit(old(self).state(), push_code(rt)),
            old(self).wf() ==> final(self).wf(),
            final(self).state().values.len() == old(self).state().values.len(),
    {
        self.add_instr(mk(Op::Addiu(Reg::Sp, Reg::Sp, -4)));
        self.add_instr(mk(Op::Sw(rt, 0, Reg::Sp)));
        assert(self.state().instrs =~= old(self).state().instrs + push_code(rt));
    }

    fn pop_from_stack(&mut self, rt: Reg)
        ensures
            final(self).state() == emit(old(self).state(), pop_code(rt)),
            old(self).wf() ==> final(self).wf(),
            final(self).state().values.len() == old(self).state().values.len(),
    {
        self.add_instr(mk(Op::Lw(rt, 0, Reg::Sp)));
        self.add_instr(mk(Op::Addiu(Reg::Sp, Reg::Sp, 4)));
        assert(self.state().instrs =~= old(self).state().instrs + pop_code(rt));
    }

    /// Pushes a literal; a string has no representation on the target.
    fn push_lit_to_stack(&mut self, lit: &Literal) -> (r: Result<(), Error>)
        ensures
            old(self).wf() ==> final(self).wf(),
            final(self).state().values.len() == old(self).state().values.len(),
            match lit_op(lit@) {
                Some(op) => r is Ok && final(self).state() == emit(old(self).state(), seq![plain(op)] + push_code(Reg::T0)),
                None => r matches Err(Error::CodeGen(e)) && e@ == SpecCodeGenError::UnsupportedLiteral(lit@),
            },
    {
        let ghost s0 = self.state();
        match lit {
            Literal::Bool(b) => self.add_instr(mk(Op::Addi(Reg::T0, Reg::Zero, if *b { 1 } else { 0 }))),
            Literal::Int(i) => self.add_instr(mk(Op::Addi(Reg::T0, Reg::Zero, #[verifier::truncate] (*i as i16)))),
            Literal::Unit => self.add_instr(mk(Op::Add(Reg::T0, Reg::Zero, Reg::Zero))),
            Literal::String(_) => return Err(Error::CodeGen(CodeGenError::UnsupportedLiteral(lit.copy()))),
        }
        self.push_to_stack(Reg::T0);
        assert(self.state().instrs =~= s0.instrs + (seq![plain(lit_op(lit@).unwrap())] + push_code(Reg::T0)));
        Ok(())
    }

    /// The label of function `id`.
    pub fn lookup_label(&self, id: &str) -> (r: Result<String, Error>)
        ensures
            match lookup_label_in(self.state().labels, id@) {
                Some(l) => r matches Ok(s) && s@ == l,
                None => r matches Err(Error::CodeGen(e)) && e@ == SpecCodeGenError::UndefinedFunction(id@),
            },
    {
        match self.labels.get(id) {
            Some(l) => Ok(l.clone()),
            None => Err(Error::CodeGen(CodeGenError::UndefinedFunction(id.to_owned()))),
        }
    }

    /// The stack offset of `id` in the innermost scope that has it.
    pub fn lookup_value_offset(&self, id: &str) -> (r: Result<i16, Error>)
        ensures
            match lookup_offset_in(self.state().values, id@) {
                Some(o) => r == Ok::<i16, Error>(o),
                None => r matches Err(Error::CodeGen(e)) && e@ == SpecCodeGenError::UndefinedValue(id@),
            },
    {
        let ghost vs = self.state().values;
        let mut i = self.values.len();
        assert(vs.subrange(0, i as int) =~= vs);
        while i > 0
            invariant
                i <= self.values@.len(),
                vs == self.state().values,
                lookup_offset_in(vs, id@) == lookup_offset_in(vs.subrange(0, i as int), id@),
            decreases i,
        {
            let ghost pre = vs.subrange(0, i as int);
            assert(pre.drop_last() =~= vs.subrange(0, i - 1));
            match self.values[i - 1].get(id) {
                Some(o) => {
                    return Ok(*o);
                },
                None => {
                    i = i - 1;
                },
            }
        }
        Err(Error::CodeGen(CodeGenError::UndefinedValue(id.to_owned())))
    }

    /// Gives local `id` the next stack slot of the frame, and returns its offset.
    fn define_value_offset(&mut self, id: &str) -> (r: Result<i16, Error>)
        requires
            old(self).wf(),
        ensures
            final(self).wf(),
            final(self).state().values.len() == old(self).state().values.len(),
            match define_value_spec(old(self).state(), id@) {
                Ok(s) => r == Ok::<i16, Error>(old(self).state().stack_offset) && final(self).state() == s,
                Err(e) => r matches Err(Error::CodeGen(x)) && x@ == e,
            },
    {
        if self.stack_offset < -32764 || self.fn_local_count == i16::MAX {
            return Err(Error::CodeGen(CodeGenError::Overflow));
        }
        let offset = self.stack_offset;
        let n = self.values.len();
        let ghost m0 = self.values@[n - 1];
        self.values[n - 1].insert(id.to_owned(), offset);
        self.stack_offset = self.stack_offset - 4;
        self.fn_local_count = self.fn_local_count + 1;
        proof {
            assert(self.values@[n - 1]@ =~= m0@.insert(id@, offset));
            assert(self.state().values =~= define_top(old(self).state().values, id@, offset));
        }
        Ok(offset)
    }

    /// Gives function `id` its label: `main` keeps its name, the others are numbered.
    pub fn define_function_label(&mut self, id: &str) -> (r: Result<(), Error>)
        requires
            old(self).wf(),
        ensures
            final(self).wf(),
            final(self).state().values.len() == old(self).state().values.len(),
            match define_fn_label_spec(old(self).state(), id@) {
                Ok(s) => r is Ok && final(self).state() == s,
                Err(e) => r matches Err(Error::CodeGen(x)) && x@ == e,
            },
    {
        if self.label_count == i16::MAX {
            return Err(Error::CodeGen(CodeGenError::Overflow));
        }
        self.label_count = self.label_count + 1;
        let label = if is_main(id) {
            id.to_owned()
        } else {
            let mut l = String::new();
            push_str(&mut l, "fn_");
            push_i32(&mut l, self.label_count as i32);
            push_str(&mut l, "_");
            push_str(&mut l, id);
            l
        };
        proof {
            assert(label@ =~= fn_label_text(self.label_count, id@));
        }
        self.labels.insert(id.to_owned(), label);
        assert(self.state().labels =~= old(self).state().labels.insert(id@, fn_label_text(self.label_count, id@)));
        Ok(())
    }

    /// Makes a fresh label for the jump target `id`.
    pub fn define_label(&mut self, id: &str) -> (r: Result<String, Error>)
        requires
            old(self).wf(),
        ensures
            final(self).wf(),
            final(self).state().values.len() == old(self).state().values.len(),
            match define_label_spec(old(self).state(), id@) {
                Ok((l, s)) => r matches Ok(x) && x@ == l && final(self).state() == s,
                Err(e) => r matches Err(Error::CodeGen(x)) && x@ == e,
            },
    {
        if self.label_count == i16::MAX {
            return Err(Error::CodeGen(CodeGenError::Overflow));
        }
        let mut label = String::new();
        push_str(&mut label, "label_");
        push_i32(&mut label, self.label_count as i32);
        push_str(&mut label, "_");
        push_str(&mut label, id);
        proof {
            assert(label@ =~= local_label_text(self.label_count, id@));
        }
        self.labels.insert(id.to_owned(), label.clone());
        self.label_count = self.label_count + 1;
        assert(self.state().labels =~= old(self).state().labels.insert(id@, label@));
        Ok(label)
    }

    /// Makes a fresh label for `id` and marks the next instruction with it.
    fn emit_label(&mut self, id: &str) -> (r: Result<String, Error>)
        requires
            old(self).wf(),
        ensures
            final(self).wf(),
            final(self).state().values.len() == old(self).state().values.len(),
            match define_label_spec(old(self).state(), id@) {
                Ok((l, s)) => r matches Ok(x) && x@ == l && final(self).state() == emit(s, seq![nop_at(l)]),
                Err(e) => r matches Err(Error::CodeGen(x)) && x@ == e,
            },
    {
        let label = match self.define_label(id) {
            Ok(l) => l,
            Err(e) => return Err(e),
        };
        self.add_nop_with_label(&label);
        Ok(label)
    }
}


// ---------------------------------------------------------------------------
// What code generation produces, as mathematics
//
// Every expression leaves its value pushed on the stack; a statement leaves the
// stack as it found it. Locals live in the frame below the frame pointer, the
// arguments of a call above it.

/// Whether a function with result type `ty` returns unit.
pub open spec fn returns_unit(ty: Option<TypeExpr>) -> bool {
    match ty {
        None => true,
        Some(t) => t.node == Type::Unit,
    }
}

/// The frame offsets of the first `k` parameters: 8, 12, 16, ... above the frame pointer.
pub open spec fn param_offsets(ps: Seq<SpecParam>, k: int) -> Map<Seq<char>, i16>
    decreases k,
{
    if k <= 0 {
        Map::empty()
    } else {
        param_offsets(ps, k - 1).insert(ps[k - 1].id, (8 + 4 * (k - 1)) as i16)
    }
}

/// `is` with the element at `idx` replaced by `x`, where there is one.
pub open spec fn patch(is: Seq<SpecInstr>, idx: int, x: SpecInstr) -> Seq<SpecInstr> {
    if 0 <= idx < is.len() {
        is.update(idx, x)
    } else {
        is
    }
}

/// The code of a binary operator, after the code of both operands.
pub open spec fn cg_binop(s: CgState, op: BinOp) -> Result<CgState, SpecCodeGenError> {
    match op {
        BinOp::Mul | BinOp::Div => Err(SpecCodeGenError::UnsupportedOperator(op)),
        BinOp::Eq => match define_label_spec(s, "equal"@) {
            Err(x) => Err(x),
            Ok((eq_l, s1)) => match define_label_spec(s1, "done"@) {
                Err(x) => Err(x),
                Ok((done_l, s2)) => Ok(emit(
                    s2,
                    pop_code(Reg::T1) + pop_code(Reg::T0) + seq![
                        plain(Op::Beq(Reg::T0, Reg::T1, eq_l)),
                        plain(Op::Addu(Reg::T0, Reg::Zero, Reg::Zero)),
                        plain(Op::B(done_l)),
                        nop_at(eq_l),
                        plain(Op::Addiu(Reg::T0, Reg::Zero, 1)),
                        nop_at(done_l),
                    ] + push_code(Reg::T0),
                )),
            },
        },
        _ => Ok(emit(s, pop_code(Reg::T1) + pop_code(Reg::T0) + seq![plain(binop_op(op))] + push_code(Reg::T0))),
    }
}

/// The code of an expression.
pub open spec fn cg_expr(s: CgState, e: SpecExpr) -> Result<CgState, SpecCodeGenError>
    decreases e, 2int,
{
    match e.node {
        SpecExprKind::Ident(id) => match lookup_offset_in(s.values, id) {
            Some(off) => Ok(emit(s, seq![plain(Op::Lw(Reg::T0, off, Reg::Fp))] + push_code(Reg::T0))),
            None => Err(SpecCodeGenError::UndefinedValue(id)),
        },
        SpecExprKind::Lit(l) => match lit_op(l) {
            Some(op) => Ok(emit(s, seq![plain(op)] + push_code(Reg::T0))),
            None => Err(SpecCodeGenError::UnsupportedLiteral(l)),
        },
        SpecExprKind::BinOp(op, l, r) => match cg_expr(s, *l) {
            Err(x) => Err(x),
            Ok(s1) => match cg_expr(s1, *r) {
                Err(x) => Err(x),
                Ok(s2) => cg_binop(s2, op),
            },
        },
        SpecExprKind::Par(x) => cg_expr(s, *x),
        SpecExprKind::Call(name, args) => cg_call(s, name, args),
        SpecExprKind::IfThenElse(c, t, el) => match define_label_spec(s, "else_then"@) {
            Err(x) => Err(x),
            Ok((else_l, s1)) => match define_label_spec(s1, "end_if"@) {
                Err(x) => Err(x),
                Ok((end_l, s2)) => match cg_expr(s2, *c) {
                    Err(x) => Err(x),
                    Ok(s3) => match cg_block(emit(s3, pop_code(Reg::T0) + seq![plain(Op::Beq(Reg::T0, Reg::Zero, else_l))]), t) {
                        Err(x) => Err(x),
                        Ok(s4) => {
                            let s5 = emit(s4, semi_unit(t.semi) + seq![plain(Op::B(end_l)), nop_at(else_l)]);
                            match el {
                                Some(eb) => match cg_block(s5, eb) {
                                    Err(x) => Err(x),
                                    Ok(s6) => Ok(emit(s6, semi_unit(eb.semi) + seq![nop_at(end_l)])),
                                },
                                None => Ok(emit(s5, unit_code() + seq![nop_at(end_l)])),
                            }
                        },
                    },
                },
            },
        },
        SpecExprKind::Block(b) => cg_block_expr(s, b),
        SpecExprKind::UnOp(op, x) => match cg_expr(s, *x) {
            Err(x) => Err(x),
            Ok(s1) => Ok(emit(s1, pop_code(Reg::T0) + seq![plain(unop_op(op))] + push_code(Reg::T0))),
        },
    }
}

/// A call of `name`: there must be a label for it.
pub open spec fn cg_call(s: CgState, name: Seq<char>, args: Seq<SpecExpr>) -> Result<CgState, SpecCodeGenError>
    decreases args, args.len() + 2,
{
    match lookup_label_in(s.labels, name) {
        Some(l) => cg_call_impl(s, l, args),
        None => Err(SpecCodeGenError::UndefinedFunction(name)),
    }
}

/// A call of the code at `label`: the return address is saved, the arguments
/// pushed, the callee entered; then the arguments are dropped, the return address
/// restored and the result, left in `t0`, pushed.
pub open spec fn cg_call_impl(s: CgState, label: Seq<char>, args: Seq<SpecExpr>) -> Result<CgState, SpecCodeGenError>
    decreases args, args.len() + 1,
{
    match cg_args(emit(s, push_code(Reg::Ra)), args, 0) {
        Err(x) => Err(x),
        Ok(s1) => if args.len() > 8191 {
            Err(SpecCodeGenError::Overflow)
        } else {
            Ok(emit(
                s1,
                seq![plain(Op::Bal(label))]
                    + (if args.len() > 0 { seq![plain(Op::Addiu(Reg::Sp, Reg::Sp, (args.len() * 4) as i16))] } else { seq![] })
                    + pop_code(Reg::Ra) + push_code(Reg::T0),
            ))
        },
    }
}

/// The code of the arguments from position `i` on, left to right.
pub open spec fn cg_args(s: CgState, args: Seq<SpecExpr>, i: int) -> Result<CgState, SpecCodeGenError>
    decreases args, args.len() - i,
{
    if i < 0 || i >= args.len() {
        Ok(s)
    } else {
        match cg_expr(s, args[i]) {
            Err(x) => Err(x),
            Ok(s1) => cg_args(s1, args, i + 1),
        }
    }
}

/// The code of a block, in a scope of its own; its value, where it has one, is left on the stack.
pub open spec fn cg_block(s: CgState, b: SpecBlock) -> Result<CgState, SpecCodeGenError>
    decreases b, 1int,
{
    match cg_stmts(CgState { values: s.values.push(Map::empty()), ..s }, b.statements, b.semi, 0) {
        Err(x) => Err(x),
        Ok(s1) => Ok(CgState { values: pop_top(s1.values), ..s1 }),
    }
}

/// A block used as an expression: unit is pushed where the block has no value.
pub open spec fn cg_block_expr(s: CgState, b: SpecBlock) -> Result<CgState, SpecCodeGenError>
    decreases b, 2int,
{
    match cg_block(s, b) {
        Err(x) => Err(x),
        Ok(s1) => Ok(if b.semi || b.statements.len() == 0 { emit(s1, unit_code()) } else { s1 }),
    }
}

/// The statements from position `i` on; the last one gives the block's value unless the block ends with `;`.
pub open spec fn cg_stmts(s: CgState, ss: Seq<SpecStatement>, semi: bool, i: int) -> Result<CgState, SpecCodeGenError>
    decreases ss, ss.len() - i,
{
    if i < 0 || i >= ss.len() {
        Ok(s)
    } else {
        match cg_block_item(s, ss[i], i + 1 == ss.len() && !semi) {
            Err(x) => Err(x),
            Ok(s1) => cg_stmts(s1, ss, semi, i + 1),
        }
    }
}

/// A statement of a block: an expression keeps its value on the stack only where it is the block's value.
pub open spec fn cg_block_item(s: CgState, st: SpecStatement, is_value: bool) -> Result<CgState, SpecCodeGenError>
    decreases st, 3int,
{
    match st.node {
        SpecStmtKind::Expr(e) => if is_value {
            cg_expr(s, e)
        } else {
            match cg_expr(s, e) {
                Err(x) => Err(x),
                Ok(s1) => Ok(emit(s1, pop_code(Reg::T0))),
            }
        },
        _ => cg_stmt(s, st),
    }
}

/// The code of a statement.
pub open spec fn cg_stmt(s: CgState, st: SpecStatement) -> Result<CgState, SpecCodeGenError>
    decreases st, 2int,
{
    match st.node {
        SpecStmtKind::Let(_, _, _, _) => cg_let(s, st),
        SpecStmtKind::Assign(_, _) => cg_assign(s, st),
        SpecStmtKind::While(_, _) => cg_while(s, st),
        SpecStmtKind::Expr(e) => cg_expr(s, e),
        SpecStmtKind::Fn(_) => cg_local_fn(s, st),
    }
}

/// `let`: the value (zero where there is none) goes to a new slot of the frame.
pub open spec fn cg_let(s: CgState, st: SpecStatement) -> Result<CgState, SpecCodeGenError>
    decreases st, 1int,
{
    match st.node {
        SpecStmtKind::Let(_, id, _, init) => {
            let r = match init {
                Some(e) => match cg_expr(s, e) {
                    Err(x) => Err(x),
                    Ok(s1) => Ok(emit(s1, pop_code(Reg::T0))),
                },
                None => Ok(emit(s, seq![plain(Op::Addiu(Reg::T0, Reg::Zero, 0))])),
            };
            match r {
                Err(x) => Err(x),
                Ok(s1) => match define_value_spec(s1, id) {
                    Err(x) => Err(x),
                    Ok(s2) => Ok(emit(s2, seq![plain(Op::Sw(Reg::T0, s1.stack_offset, Reg::Fp))])),
                },
            }
        },
        _ => Ok(s),
    }
}

/// Assignment: the value goes to the slot of the name on the left.
pub open spec fn cg_assign(s: CgState, st: SpecStatement) -> Result<CgState, SpecCodeGenError>
    decreases st, 1int,
{
    match st.node {
        SpecStmtKind::Assign(lhs, rhs) => match cg_expr(s, rhs) {
            Err(x) => Err(x),
            Ok(s1) => {
                let s2 = emit(s1, pop_code(Reg::T0));
                match lhs.node {
                    SpecExprKind::Ident(var) => match lookup_offset_in(s2.values, var) {
                        Some(off) => Ok(emit(s2, seq![plain(Op::Sw(Reg::T0, off, Reg::Fp))])),
                        None => Err(SpecCodeGenError::UndefinedValue(var)),
                    },
                    _ => Err(SpecCodeGenError::AssignmentToNonIdent(expr_text(lhs))),
                }
            },
        },
        _ => Ok(s),
    }
}

/// `while`: the condition at a label; a zero jumps past the body, which jumps back.
pub open spec fn cg_while(s: CgState, st: SpecStatement) -> Result<CgState, SpecCodeGenError>
    decreases st, 1int,
{
    match st.node {
        SpecStmtKind::While(c, b) => match define_label_spec(s, "while_start"@) {
            Err(x) => Err(x),
            Ok((start_l, s1)) => match define_label_spec(emit(s1, seq![nop_at(start_l)]), "while_end"@) {
                Err(x) => Err(x),
                Ok((end_l, s2)) => match cg_expr(s2, c) {
                    Err(x) => Err(x),
                    Ok(s3) => match cg_block(emit(s3, pop_code(Reg::T0) + seq![plain(Op::Beq(Reg::T0, Reg::Zero, end_l))]), b) {
                        Err(x) => Err(x),
                        Ok(s4) => Ok(emit(s4, seq![plain(Op::B(start_l)), nop_at(end_l)])),
                    },
                },
            },
        },
        _ => Ok(s),
    }
}

/// A function declared in a block: its label joins the labels, and its code is
/// jumped over where it stands.
pub open spec fn cg_local_fn(s: CgState, st: SpecStatement) -> Result<CgState, SpecCodeGenError>
    decreases st, 1int,
{
    match st.node {
        SpecStmtKind::Fn(f) => match define_fn_label_spec(s, f.id) {
            Err(x) => Err(x),
            Ok(s1) => match define_label_spec(s1, "after_local_fn"@) {
                Err(x) => Err(x),
                Ok((after_l, s2)) => match cg_fn_decl(emit(s2, seq![plain(Op::B(after_l))]), f) {
                    Err(x) => Err(x),
                    Ok(s3) => Ok(emit(s3, seq![nop_at(after_l)])),
                },
            },
        },
        _ => Ok(s),
    }
}

/// The code after a function body: its result moved to `t0`.
pub open spec fn result_code(f: SpecFnDecl) -> Seq<SpecInstr> {
    if !returns_unit(f.ty) {
        pop_code(Reg::T0)
    } else if f.id != main_name() {
        unit_code() + pop_code(Reg::T0)
    } else {
        seq![]
    }
}

/// The prologue of a function up to the instruction that allocates the frame.
pub open spec fn prologue_code(l: Seq<char>) -> Seq<SpecInstr> {
    seq![nop_at(l)] + push_code(Reg::Ra) + push_code(Reg::Fp) + seq![plain(Op::Addi(Reg::Fp, Reg::Sp, 0))]
}

/// The epilogue: the frame released, the caller's frame pointer and return
/// address restored; `main` halts, the others return.
pub open spec fn epilogue_code(f: SpecFnDecl) -> Seq<SpecInstr> {
    seq![plain(Op::Addi(Reg::Sp, Reg::Fp, 0))] + pop_code(Reg::Fp) + pop_code(Reg::Ra)
        + seq![plain(if f.id == main_name() { Op::Halt } else { Op::Jr(Reg::Ra) })]
}

/// The state in which a function body is generated: a scope of the parameters, an
/// empty frame, and the prologue, whose last instruction allocates the frame.
pub open spec fn enter_frame(s: CgState, f: SpecFnDecl, fl: Seq<char>) -> CgState {
    emit(
        CgState {
            values: seq![param_offsets(f.params, f.params.len() as int)],
            stack_offset: -4i16,
            fn_local_count: 0i16,
            ..s
        },
        prologue_code(fl) + seq![plain(Op::Addiu(Reg::Sp, Reg::Sp, 0))],
    )
}

/// After the body: the result moved to `t0`, the frame size filled in at `idx`, the epilogue.
pub open spec fn leave_frame(s: CgState, f: SpecFnDecl, idx: int) -> Result<CgState, SpecCodeGenError> {
    let s1 = emit(s, result_code(f));
    if s1.fn_local_count < 0 || s1.fn_local_count > 8191 {
        Err(SpecCodeGenError::Overflow)
    } else {
        let alloc = plain(Op::Addiu(Reg::Sp, Reg::Sp, (-(s1.fn_local_count * 4)) as i16));
        Ok(CgState { instrs: patch(s1.instrs, idx, alloc) + epilogue_code(f), ..s1 })
    }
}

/// The code of a function, at its label, in a frame and scope of its own; the
/// frame size is filled in once the body has declared its locals. The scopes and
/// frame counters of the surrounding code are back in place afterwards.
pub open spec fn cg_fn_decl(s: CgState, f: SpecFnDecl) -> Result<CgState, SpecCodeGenError>
    decreases f, 1int,
{
    if f.params.len() > 8190 {
        Err(SpecCodeGenError::Overflow)
    } else {
        match lookup_label_in(s.labels, f.id) {
            None => Err(SpecCodeGenError::UndefinedFunction(f.id)),
            Some(fl) => match cg_block(enter_frame(s, f, fl), f.body) {
                Err(x) => Err(x),
                Ok(s1) => match leave_frame(s1, f, s.instrs.len() + 6int) {
                    Err(x) => Err(x),
                    Ok(s2) => Ok(CgState {
                        values: s.values,
                        stack_offset: s.stack_offset,
                        fn_local_count: s.fn_local_count,
                        ..s2
                    }),
                },
            },
        }
    }
}

/// The labels of the functions of a program from position `i` on, in order.
pub open spec fn define_fn_labels(s: CgState, fs: Seq<SpecFnDecl>, i: int) -> Result<CgState, SpecCodeGenError>
    decreases fs.len() - i,
{
    if i < 0 || i >= fs.len() {
        Ok(s)
    } else {
        match define_fn_label_spec(s, fs[i].id) {
            Err(x) => Err(x),
            Ok(s1) => define_fn_labels(s1, fs, i + 1),
        }
    }
}

/// The code of the functions from position `i` on.
pub open spec fn cg_fns(s: CgState, fs: Seq<SpecFnDecl>, i: int) -> Result<CgState, SpecCodeGenError>
    decreases fs.len() - i,
{
    if i < 0 || i >= fs.len() {
        Ok(s)
    } else {
        match cg_fn_decl(s, fs[i]) {
            Err(x) => Err(x),
            Ok(s1) => cg_fns(s1, fs, i + 1),
        }
    }
}

/// The code of a program: every function gets its label first, so that any can call
/// any; a jump to `main` comes first, then the functions in order.
pub open spec fn cg_prog(s: CgState, fs: Seq<SpecFnDecl>) -> Result<CgState, SpecCodeGenError> {
    match define_fn_labels(s, fs, 0) {
        Err(x) => Err(x),
        Ok(s1) => match lookup_label_in(s1.labels, main_name()) {
            None => Err(SpecCodeGenError::UndefinedFunction(main_name())),
            Some(ml) => cg_fns(emit(s1, seq![plain(Op::B(ml))]), fs, 0),
        },
    }
}

/// Whether `r` is the executable counterpart of the outcome `s`, with `st` the state after it.
pub open spec fn cg_outcome(r: Result<(), Error>, s: Result<CgState, SpecCodeGenError>, st: CgState) -> bool {
    match r {
        Ok(()) => s == Ok::<CgState, SpecCodeGenError>(st),
        Err(Error::CodeGen(e)) => s == Err::<CgState, SpecCodeGenError>(e@),
        Err(_) => false,
    }
}

/// The instructions of an outcome.
pub open spec fn cg_instrs(s: Result<CgState, SpecCodeGenError>) -> Result<Seq<SpecInstr>, SpecCodeGenError> {
    match s {
        Ok(st) => Ok(st.instrs),
        Err(x) => Err(x),
    }
}

/// Whether `r` is the executable counterpart of the instructions or error `s`.
pub open spec fn instrs_outcome(r: Result<Vec<Instr>, Error>, s: Result<Seq<SpecInstr>, SpecCodeGenError>) -> bool {
    match r {
        Ok(v) => s == Ok::<Seq<SpecInstr>, SpecCodeGenError>(instrs_view(v@)),
        Err(Error::CodeGen(e)) => s == Err::<Seq<SpecInstr>, SpecCodeGenError>(e@),
        Err(_) => false,
    }
}


// ---------------------------------------------------------------------------
// The code generator

fn op_copy(o: &Op<String>) -> (r: Op<String>)
    ensures
        op_view(r) == op_view(*o),
{
    match o {
        Op::Add(a, b, c) => Op::Add(*a, *b, *c),
        Op::Addu(a, b, c) => Op::Addu(*a, *b, *c),
        Op::Sub(a, b, c) => Op::Sub(*a, *b, *c),
        Op::Subu(a, b, c) => Op::Subu(*a, *b, *c),
        Op::And(a, b, c) => Op::And(*a, *b, *c),
        Op::Or(a, b, c) => Op::Or(*a, *b, *c),
        Op::Slt(a, b, c) => Op::Slt(*a, *b, *c),
        Op::Addi(a, b, i) => Op::Addi(*a, *b, *i),
        Op::Addiu(a, b, i) => Op::Addiu(*a, *b, *i),
        Op::Xori(a, b, i) => Op::Xori(*a, *b, *i),
        Op::Lw(a, i, b) => Op::Lw(*a, *i, *b),
        Op::Sw(a, i, b) => Op::Sw(*a, *i, *b),
        Op::Beq(a, b, l) => Op::Beq(*a, *b, l.clone()),
        Op::B(l) => Op::B(l.clone()),
        Op::Bal(l) => Op::Bal(l.clone()),
        Op::Jr(a) => Op::Jr(*a),
        Op::Halt => Op::Halt,
    }
}

impl Instr {
    /// An instruction equal to this one.
    pub fn copy(&self) -> (r: Instr)
        ensures
            r@ == self@,
    {
        Instr {
            op: op_copy(&self.op),
            label: match &self.label {
                Some(l) => Some(l.clone()),
                None => None,
            },
        }
    }
}

/// A list of instructions equal to `v`.
pub fn copy_instrs(v: &Vec<Instr>) -> (r: Vec<Instr>)
    ensures
        instrs_view(r@) == instrs_view(v@),
{
    let mut r: Vec<Instr> = Vec::new();
    let mut i: usize = 0;
    while i < v.len()
        invariant
            i <= v@.len(),
            r@.len() == i,
            forall|j: int| 0 <= j < i ==> (#[trigger] r@[j])@ == v@[j]@,
        decreases v@.len() - i,
    {
        r.push(v[i].copy());
        i = i + 1;
    }
    assert(instrs_view(r@) =~= instrs_view(v@));
    r
}

/// Whether a function with result type `ty` returns unit.
fn is_unit_result(ty: &Option<TypeExpr>) -> (b: bool)
    ensures
        b == returns_unit(*ty),
{
    match ty {
        None => true,
        Some(t) => match t.node {
            Type::Unit => true,
            _ => false,
        },
    }
}

/// The frame offsets of the parameters.
fn param_map(params: &crate::ast::Parameters) -> (m: StringHashMap<i16>)
    requires
        params@.len() <= 8190,
    ensures
        m@ == param_offsets(params@, params@.len() as int),
{
    let np = params.0.len();
    let mut m: StringHashMap<i16> = StringHashMap::new();
    let mut i: usize = 0;
    assert(m@ =~= param_offsets(params@, 0));
    while i < np
        invariant
            np == params.0@.len(),
            np <= 8190,
            i <= np,
            m@ == param_offsets(params@, i as int),
        decreases np - i,
    {
        let offset: i16 = 8 + (i as i16) * 4;
        assert(params@[i as int].id == params.0@[i as int].id@);
        m.insert(params.0[i].id.clone(), offset);
        i = i + 1;
    }
    m
}

/// A code generator for the stack machine: each expression leaves its value on
/// the stack, each function has a frame of its own.
pub struct CodegenVm {
    env: CodeGenEnv,
}

impl CodegenVm {
    pub closed spec fn state(&self) -> CgState {
        self.env.state()
    }

    pub closed spec fn wf(&self) -> bool {
        self.env.wf()
    }

    /// A generator with no instructions yet.
    pub fn new() -> (cg: Self)
        ensures
            cg.wf(),
            cg.state() == initial_cg(),
    {
        CodegenVm { env: CodeGenEnv::new() }
    }

    /// The instructions generated so far.
    pub fn instructions(&self) -> (v: &Vec<Instr>)
        ensures
            instrs_view(v@) == self.state().instrs,
    {
        self.env.instructions()
    }

    fn push_unit(&mut self)
        requires
            old(self).wf(),
        ensures
            final(self).wf(),
            final(self).state() == emit(old(self).state(), unit_code()),
    {
        let ghost s0 = self.state();
        self.env.add_instr(mk(Op::Addi(Reg::T0, Reg::Zero, 0)));
        self.env.push_to_stack(Reg::T0);
        assert(self.state().instrs =~= s0.instrs + unit_code());
    }

    fn push_unit_if_semi(&mut self, block: &Block)
        requires
            old(self).wf(),
        ensures
            final(self).wf(),
            final(self).state() == emit(old(self).state(), semi_unit(block.semi)),
    {
        if block.semi {
            self.push_unit();
        } else {
            assert(self.state().instrs =~= self.state().instrs + semi_unit(block.semi));
        }
    }

    /// Generates the code of an expression.
    pub fn codegen_expr(&mut self, expr: &Expr) -> (r: Result<(), Error>)
        requires
            old(self).wf(),
        ensures
            final(self).wf(),
            r is Ok ==> final(self).state().values.len() == old(self).state().values.len(),
            cg_outcome(r, cg_expr(old(self).state(), expr@), final(self).state()),
        decreases expr, 2nat,
    {
        let ghost s0 = self.state();
        match &expr.node {
            ExprKind::Ident(id) => {
                let offset = match self.env.lookup_value_offset(id.as_str()) {
                    Ok(o) => o,
                    Err(e) => return Err(e),
                };
                self.env.add_instr(mk(Op::Lw(Reg::T0, offset, Reg::Fp)));
                self.env.push_to_stack(Reg::T0);
                assert(self.state().instrs =~= s0.instrs + (seq![plain(Op::Lw(Reg::T0, offset, Reg::Fp))] + push_code(Reg::T0)));
                Ok(())
            },
            ExprKind::Lit(lit) => self.env.push_lit_to_stack(lit),
            ExprKind::BinOp(op, l, r) => {
                match self.codegen_expr(l) {
                    Ok(()) => {},
                    Err(e) => return Err(e),
                }
                match self.codegen_expr(r) {
                    Ok(()) => {},
                    Err(e) => return Err(e),
                }
                self.codegen_expr_binop(*op)
            },
            ExprKind::Par(x) => self.codegen_expr(x),
            ExprKind::Call(id, args) => self.codegen_call(id, args),
            ExprKind::IfThenElse(_, _, _) => self.codegen_expr_if_then_else(expr),
            ExprKind::Block(b) => self.codegen_block_expr(b),
            ExprKind::UnOp(op, x) => {
                match self.codegen_expr(x) {
                    Ok(()) => {},
                    Err(e) => return Err(e),
                }
                self.codegen_expr_unop(*op);
                Ok(())
            },
        }
    }

    /// The code of a binary operator once both operands are on the stack.
    fn codegen_expr_binop(&mut self, bin_op: BinOp) -> (r: Result<(), Error>)
        requires
            old(self).wf(),
        ensures
            final(self).wf(),
            final(self).state().values.len() == old(self).state().values.len(),
            cg_outcome(r, cg_binop(old(self).state(), bin_op), final(self).state()),
    {
        let ghost s0 = self.state();
        match bin_op {
            BinOp::Mul => return Err(Error::CodeGen(CodeGenError::UnsupportedOperator(bin_op))),
            BinOp::Div => return Err(Error::CodeGen(CodeGenError::UnsupportedOperator(bin_op))),
            BinOp::Eq => {
                let equal_label = match self.env.define_label("equal") {
                    Ok(l) => l,
                    Err(e) => return Err(e),
                };
                let done_label = match self.env.define_label("done") {
                    Ok(l) => l,
                    Err(e) => return Err(e),
                };
                let ghost s2 = self.state();
                self.env.pop_from_stack(Reg::T1);
                self.env.pop_from_stack(Reg::T0);
                self.env.add_instr(mk(Op::Beq(Reg::T0, Reg::T1, equal_label.clone())));
                self.env.add_instr(mk(Op::Addu(Reg::T0, Reg::Zero, Reg::Zero)));
                self.env.add_instr(mk(Op::B(done_label.clone())));
                self.env.add_nop_with_label(&equal_label);
                self.env.add_instr(mk(Op::Addiu(Reg::T0, Reg::Zero, 1)));
                self.env.add_nop_with_label(&done_label);
                self.env.push_to_stack(Reg::T0);
                assert(self.state().instrs =~= s2.instrs + (pop_code(Reg::T1) + pop_code(Reg::T0) + seq![
                    plain(Op::Beq(Reg::T0, Reg::T1, equal_label@)),
                    plain(Op::Addu(Reg::T0, Reg::Zero, Reg::Zero)),
                    plain(Op::B(done_label@)),
                    nop_at(equal_label@),
                    plain(Op::Addiu(Reg::T0, Reg::Zero, 1)),
                    nop_at(done_label@),
                ] + push_code(Reg::T0)));
                Ok(())
            },
            _ => {
                self.env.pop_from_stack(Reg::T1);
                self.env.pop_from_stack(Reg::T0);
                let op = match bin_op {
                    BinOp::Add => Op::Add(Reg::T0, Reg::T0, Reg::T1),
                    BinOp::Sub => Op::Sub(Reg::T0, Reg::T0, Reg::T1),
                    BinOp::And => Op::And(Reg::T0, Reg::T0, Reg::T1),
                    BinOp::Or => Op::Or(Reg::T0, Reg::T0, Reg::T1),
                    BinOp::Lt => Op::Slt(Reg::T0, Reg::T0, Reg::T1),
                    _ => Op::Slt(Reg::T0, Reg::T1, Reg::T0),
                };
                self.env.add_instr(mk(op));
                self.env.push_to_stack(Reg::T0);
                assert(self.state().instrs =~= s0.instrs + (pop_code(Reg::T1) + pop_code(Reg::T0) + seq![plain(binop_op(bin_op))] + push_code(Reg::T0)));
                Ok(())
            },
        }
    }

    /// The code of a unary operator once its operand is on the stack.
    fn codegen_expr_unop(&mut self, un_op: UnOp)
        requires
            old(self).wf(),
        ensures
            final(self).wf(),
            final(self).state() == emit(old(self).state(), pop_code(Reg::T0) + seq![plain(unop_op(un_op))] + push_code(Reg::T0)),
    {
        let ghost s0 = self.state();
        self.env.pop_from_stack(Reg::T0);
        match un_op {
            UnOp::Neg => self.env.add_instr(mk(Op::Subu(Reg::T0, Reg::Zero, Reg::T0))),
            UnOp::Bang => self.env.add_instr(mk(Op::Xori(Reg::T0, Reg::T0, 1))),
        }
        self.env.push_to_stack(Reg::T0);
        assert(self.state().instrs =~= s0.instrs + (pop_code(Reg::T0) + seq![plain(unop_op(un_op))] + push_code(Reg::T0)));
    }

    /// The code of an `if` expression.
    fn codegen_expr_if_then_else(&mut self, expr: &Expr) -> (r: Result<(), Error>)
        requires
            old(self).wf(),
            expr.node is IfThenElse,
        ensures
            final(self).wf(),
            r is Ok ==> final(self).state().values.len() == old(self).state().values.len(),
            cg_outcome(r, cg_expr(old(self).state(), expr@), final(self).state()),
        decreases expr, 1nat,
    {
        match &expr.node {
            ExprKind::IfThenElse(cond, then, else_then) => {
                let else_then_label = match self.env.define_label("else_then") {
                    Ok(l) => l,
                    Err(e) => return Err(e),
                };
                let end_if_label = match self.env.define_label("end_if") {
                    Ok(l) => l,
                    Err(e) => return Err(e),
                };
                match self.codegen_expr(cond) {
                    Ok(()) => {},
                    Err(e) => return Err(e),
                }
                let ghost s3 = self.state();
                self.env.pop_from_stack(Reg::T0);
                self.env.add_instr(mk(Op::Beq(Reg::T0, Reg::Zero, else_then_label.clone())));
                assert(self.state().instrs =~= s3.instrs + (pop_code(Reg::T0) + seq![plain(Op::Beq(Reg::T0, Reg::Zero, else_then_label@))]));
                match self.codegen_block(then) {
                    Ok(()) => {},
                    Err(e) => return Err(e),
                }
                let ghost s4 = self.state();
                self.push_unit_if_semi(then);
                self.env.add_instr(mk(Op::B(end_if_label.clone())));
                self.env.add_nop_with_label(&else_then_label);
                assert(self.state().instrs =~= s4.instrs + (semi_unit(then.semi) + seq![plain(Op::B(end_if_label@)), nop_at(else_then_label@)]));
                let ghost s5 = self.state();
                match else_then {
                    Some(eb) => {
                        match self.codegen_block(eb) {
                            Ok(()) => {},
                            Err(e) => return Err(e),
                        }
                        let ghost s6 = self.state();
                        self.push_unit_if_semi(eb);
                        self.env.add_nop_with_label(&end_if_label);
                        assert(self.state().instrs =~= s6.instrs + (semi_unit(eb.semi) + seq![nop_at(end_if_label@)]));
                    },
                    None => {
                        self.push_unit();
                        self.env.add_nop_with_label(&end_if_label);
                        assert(self.state().instrs =~= s5.instrs + (unit_code() + seq![nop_at(end_if_label@)]));
                    },
                }
                Ok(())
            },
            _ => Ok(()),
        }
    }

    /// The code of a call of `id`, which must have a label.
    fn codegen_call(&mut self, id: &String, args: &Arguments) -> (r: Result<(), Error>)
        requires
            old(self).wf(),
        ensures
            final(self).wf(),
            r is Ok ==> final(self).state().values.len() == old(self).state().values.len(),
            cg_outcome(r, cg_call(old(self).state(), id@, args@), final(self).state()),
        decreases args, 2nat,
    {
        let label = match self.env.lookup_label(id.as_str()) {
            Ok(l) => l,
            Err(e) => return Err(e),
        };
        self.codegen_call_impl(&label, args)
    }

    /// The code of a call of the code at `label`.
    fn codegen_call_impl(&mut self, label: &String, args: &Arguments) -> (r: Result<(), Error>)
        requires
            old(self).wf(),
        ensures
            final(self).wf(),
            r is Ok ==> final(self).state().values.len() == old(self).state().values.len(),
            cg_outcome(r, cg_call_impl(old(self).state(), label@, args@), final(self).state()),
        decreases args, 1nat,
    {
        let ghost s0 = self.state();
        self.env.push_to_stack(Reg::Ra);
        let ghost s1 = self.state();
        let ghost sargs = args@;
        let n = args.0.len();
        let mut i: usize = 0;
        while i < n
            invariant
                n == args.0@.len(),
                i <= n,
                sargs == args@,
                self.wf(),
                s0 == old(self).state(),
                self.state().values.len() == s0.values.len(),
                s1 == emit(s0, push_code(Reg::Ra)),
                cg_args(s1, sargs, 0) == cg_args(self.state(), sargs, i as int),
            decreases n - i,
        {
            assert(sargs[i as int] == args.0@[i as int]@);
            let ghost st = self.state();
            match self.codegen_expr(&args.0[i]) {
                Ok(()) => {},
                Err(e) => {
                    assert(cg_args(st, sargs, i as int) == cg_expr(st, sargs[i as int]));
                    assert(cg_call_impl(s0, label@, sargs) == cg_args(s1, sargs, 0));
                    return Err(e);
                },
            }
            i = i + 1;
        }
        if n > 8191 {
            return Err(Error::CodeGen(CodeGenError::Overflow));
        }
        let ghost s2 = self.state();
        self.env.add_instr(mk(Op::Bal(label.clone())));
        if n > 0 {
            let frame: i16 = (n * 4) as i16;
            self.env.add_instr(mk(Op::Addiu(Reg::Sp, Reg::Sp, frame)));
        }
        self.env.pop_from_stack(Reg::Ra);
        self.env.push_to_stack(Reg::T0);
        assert(self.state().instrs =~= s2.instrs + (seq![plain(Op::Bal(label@))]
            + (if sargs.len() > 0 { seq![plain(Op::Addiu(Reg::Sp, Reg::Sp, (sargs.len() * 4) as i16))] } else { seq![] })
            + pop_code(Reg::Ra) + push_code(Reg::T0)));
        Ok(())
    }

    /// The code of a block, in a scope of its own.
    #[verifier::rlimit(40)]
    fn codegen_block(&mut self, block: &Block) -> (r: Result<(), Error>)
        requires
            old(self).wf(),
        ensures
            final(self).wf(),
            r is Ok ==> final(self).state().values.len() == old(self).state().values.len(),
            cg_outcome(r, cg_block(old(self).state(), block@), final(self).state()),
        decreases block, 1nat,
    {
        let ghost s0 = self.state();
        let ghost stmts = block@.statements;
        self.env.enter_scope();
        let ghost s1 = self.state();
        let n = block.statements.len();
        let mut i: usize = 0;
        while i < n
            invariant
                n == block.statements@.len(),
                i <= n,
                self.wf(),
                stmts == block@.statements,
                stmts == crate::ast::stmts_view(block.statements@),
                s0 == old(self).state(),
                s1 == (CgState { values: s0.values.push(Map::empty()), ..s0 }),
                self.state().values.len() == s0.values.len() + 1,
                cg_stmts(s1, stmts, block.semi, 0) == cg_stmts(self.state(), stmts, block.semi, i as int),
            decreases n - i,
        {
            assert(stmts[i as int] == block.statements@[i as int]@);
            let ghost st = self.state();
            match self.codegen_block_item(&block.statements[i], i + 1 == n && !block.semi) {
                Ok(()) => {},
                Err(x) => {
                    assert(cg_stmts(st, stmts, block.semi, i as int) == cg_block_item(st, stmts[i as int], i + 1 == n && !block.semi));
                    return Err(x);
                },
            }
            i = i + 1;
        }
        self.env.exit_scope();
        Ok(())
    }

    /// A statement of a block: an expression keeps its value on the stack only
    /// where it is the block's value.
    fn codegen_block_item(&mut self, stmt: &Statement, is_value: bool) -> (r: Result<(), Error>)
        requires
            old(self).wf(),
        ensures
            final(self).wf(),
            r is Ok ==> final(self).state().values.len() == old(self).state().values.len(),
            cg_outcome(r, cg_block_item(old(self).state(), stmt@, is_value), final(self).state()),
        decreases stmt, 3nat,
    {
        match &stmt.node {
            StatementKind::Expr(e) => {
                match self.codegen_expr(e) {
                    Ok(()) => {},
                    Err(x) => return Err(x),
                }
                if !is_value {
                    self.env.pop_from_stack(Reg::T0);
                }
                Ok(())
            },
            _ => self.codegen_stmt(stmt),
        }
    }

    /// The code of a block used as an expression: unit where it has no value.
    fn codegen_block_expr(&mut self, block: &Block) -> (r: Result<(), Error>)
        requires
            old(self).wf(),
        ensures
            final(self).wf(),
            r is Ok ==> final(self).state().values.len() == old(self).state().values.len(),
            cg_outcome(r, cg_block_expr(old(self).state(), block@), final(self).state()),
        decreases block, 2nat,
    {
        match self.codegen_block(block) {
            Ok(()) => {},
            Err(e) => return Err(e),
        }
        if block.semi || block.statements.len() == 0 {
            self.push_unit();
        }
        Ok(())
    }

    /// The code of a statement.
    fn codegen_stmt(&mut self, stmt: &Statement) -> (r: Result<(), Error>)
        requires
            old(self).wf(),
        ensures
            final(self).wf(),
            r is Ok ==> final(self).state().values.len() == old(self).state().values.len(),
            cg_outcome(r, cg_stmt(old(self).state(), stmt@), final(self).state()),
        decreases stmt, 2nat,
    {
        match &stmt.node {
            StatementKind::Let(_, _, _, _) => self.codegen_stmt_let(stmt),
            StatementKind::Assign(_, _) => self.codegen_stmt_assign(stmt),
            StatementKind::While(_, _) => self.codegen_stmt_while(stmt),
            StatementKind::Expr(e) => self.codegen_expr(e),
            StatementKind::Fn(_) => self.codegen_stmt_fn(stmt),
        }
    }

    fn codegen_stmt_let(&mut self, stmt: &Statement) -> (r: Result<(), Error>)
        requires
            old(self).wf(),
            stmt.node is Let,
        ensures
            final(self).wf(),
            r is Ok ==> final(self).state().values.len() == old(self).state().values.len(),
            cg_outcome(r, cg_let(old(self).state(), stmt@), final(self).state()),
        decreases stmt, 1nat,
    {
        match &stmt.node {
            StatementKind::Let(_, ident, _, init) => {
                match init {
                    Some(e) => {
                        match self.codegen_expr(e) {
                            Ok(()) => {},
                            Err(x) => return Err(x),
                        }
                        self.env.pop_from_stack(Reg::T0);
                    },
                    None => {
                        self.env.add_instr(mk(Op::Addiu(Reg::T0, Reg::Zero, 0)));
                    },
                }
                let offset = match self.env.define_value_offset(ident.as_str()) {
                    Ok(o) => o,
                    Err(x) => return Err(x),
                };
                self.env.add_instr(mk(Op::Sw(Reg::T0, offset, Reg::Fp)));
                Ok(())
            },
            _ => Ok(()),
        }
    }

    fn codegen_stmt_assign(&mut self, stmt: &Statement) -> (r: Result<(), Error>)
        requires
            old(self).wf(),
            stmt.node is Assign,
        ensures
            final(self).wf(),
            r is Ok ==> final(self).state().values.len() == old(self).state().values.len(),
            cg_outcome(r, cg_assign(old(self).state(), stmt@), final(self).state()),
        decreases stmt, 1nat,
    {
        match &stmt.node {
            StatementKind::Assign(lhs, rhs) => {
                match self.codegen_expr(rhs) {
                    Ok(()) => {},
                    Err(x) => return Err(x),
                }
                self.env.pop_from_stack(Reg::T0);
                match &lhs.node {
                    ExprKind::Ident(var) => {
                        let offset = match self.env.lookup_value_offset(var.as_str()) {
                            Ok(o) => o,
                            Err(x) => return Err(x),
                        };
                        self.env.add_instr(mk(Op::Sw(Reg::T0, offset, Reg::Fp)));
                        Ok(())
                    },
                    _ => Err(Error::CodeGen(CodeGenError::AssignmentToNonIdent(lhs.to_string()))),
                }
            },
            _ => Ok(()),
        }
    }

    #[verifier::spinoff_prover]
    #[verifier::rlimit(40)]
    fn codegen_stmt_while(&mut self, stmt: &Statement) -> (r: Result<(), Error>)
        requires
            old(self).wf(),
            stmt.node is While,
        ensures
            final(self).wf(),
            r is Ok ==> final(self).state().values.len() == old(self).state().values.len(),
            cg_outcome(r, cg_while(old(self).state(), stmt@), final(self).state()),
        decreases stmt, 1nat,
    {
        match &stmt.node {
            StatementKind::While(cond, block) => {
                let while_start_label = match self.env.emit_label("while_start") {
                    Ok(l) => l,
                    Err(x) => return Err(x),
                };
                let while_end_label = match self.env.define_label("while_end") {
                    Ok(l) => l,
                    Err(x) => return Err(x),
                };
                match self.codegen_expr(cond) {
                    Ok(()) => {},
                    Err(x) => return Err(x),
                }
                let ghost s3 = self.state();
                self.env.pop_from_stack(Reg::T0);
                self.env.add_instr(mk(Op::Beq(Reg::T0, Reg::Zero, while_end_label.clone())));
                assert(self.state().instrs =~= s3.instrs + (pop_code(Reg::T0) + seq![plain(Op::Beq(Reg::T0, Reg::Zero, while_end_label@))]));
                match self.codegen_block(block) {
                    Ok(()) => {},
                    Err(x) => return Err(x),
                }
                let ghost s4 = self.state();
                self.env.add_instr(mk(Op::B(while_start_label)));
                self.env.add_nop_with_label(&while_end_label);
                assert(self.state().instrs =~= s4.instrs + seq![plain(Op::B(while_start_label@)), nop_at(while_end_label@)]);
                Ok(())
            },
            _ => Ok(()),
        }
    }

    fn codegen_stmt_fn(&mut self, stmt: &Statement) -> (r: Result<(), Error>)
        requires
            old(self).wf(),
            stmt.node is Fn,
        ensures
            final(self).wf(),
            r is Ok ==> final(self).state().values.len() == old(self).state().values.len(),
            cg_outcome(r, cg_local_fn(old(self).state(), stmt@), final(self).state()),
        decreases stmt, 1nat,
    {
        match &stmt.node {
            StatementKind::Fn(fn_declaration) => {
                match self.env.define_function_label(fn_declaration.id.as_str()) {
                    Ok(()) => {},
                    Err(x) => return Err(x),
                }
                let after_fn_label = match self.env.define_label("after_local_fn") {
                    Ok(l) => l,
                    Err(x) => return Err(x),
                };
                self.env.add_instr(mk(Op::B(after_fn_label.clone())));
                match self.codegen_fn_decl(fn_declaration) {
                    Ok(()) => {},
                    Err(x) => return Err(x),
                }
                self.env.add_nop_with_label(&after_fn_label);
                Ok(())
            },
            _ => Ok(()),
        }
    }

    /// The code of a function, in a frame and scope of its own.
    fn codegen_fn_decl(&mut self, fn_decl: &FnDeclaration) -> (r: Result<(), Error>)
        requires
            old(self).wf(),
        ensures
            final(self).wf(),
            r is Ok ==> final(self).state().values.len() == old(self).state().values.len(),
            cg_outcome(r, cg_fn_decl(old(self).state(), fn_decl@), final(self).state()),
        decreases fn_decl, 1nat,
    {
        let ghost s0 = self.state();
        let ghost f = fn_decl@;
        if fn_decl.parameters.0.len() > 8190 {
            return Err(Error::CodeGen(CodeGenError::Overflow));
        }
        let fn_label = match self.env.lookup_label(fn_decl.id.as_str()) {
            Ok(l) => l,
            Err(x) => return Err(x),
        };
        let mut saved_values: Vec<StringHashMap<i16>> = vec![param_map(&fn_decl.parameters)];
        std::mem::swap(&mut saved_values, &mut self.env.values);
        let saved_stack_offset = self.env.stack_offset;
        let saved_fn_local_count = self.env.fn_local_count;
        self.env.stack_offset = -4;
        self.env.fn_local_count = 0;
        let ghost s1 = self.state();
        assert(s1.values =~= seq![param_offsets(f.params, f.params.len() as int)]);
        self.env.add_nop_with_label(&fn_label);
        let local_alloc_idx = self.emit_fn_prologue();
        assert(self.state().instrs =~= s1.instrs + (prologue_code(fn_label@) + seq![plain(Op::Addiu(Reg::Sp, Reg::Sp, 0))]));
        assert(self.state() == enter_frame(s0, f, fn_label@));
        match self.codegen_block(&fn_decl.body) {
            Ok(()) => {},
            Err(x) => return Err(x),
        }
        match self.emit_fn_epilogue(fn_decl, local_alloc_idx) {
            Ok(()) => {},
            Err(x) => return Err(x),
        }
        std::mem::swap(&mut saved_values, &mut self.env.values);
        self.env.stack_offset = saved_stack_offset;
        self.env.fn_local_count = saved_fn_local_count;
        Ok(())
    }

    /// Saves the return address and the caller's frame pointer, sets up the frame
    /// pointer, and leaves room for the instruction that allocates the frame, whose
    /// position it gives.
    fn emit_fn_prologue(&mut self) -> (local_alloc_idx: usize)
        requires
            old(self).wf(),
        ensures
            final(self).wf(),
            final(self).state() == emit(old(self).state(), push_code(Reg::Ra) + push_code(Reg::Fp)
                + seq![plain(Op::Addi(Reg::Fp, Reg::Sp, 0)), plain(Op::Addiu(Reg::Sp, Reg::Sp, 0))]),
            local_alloc_idx == old(self).state().instrs.len() + 5,
    {
        let ghost s0 = self.state();
        self.env.push_to_stack(Reg::Ra);
        self.env.push_to_stack(Reg::Fp);
        self.env.add_instr(mk(Op::Addi(Reg::Fp, Reg::Sp, 0)));
        let local_alloc_idx = self.env.instructions.len();
        self.env.add_instr(mk(Op::Addiu(Reg::Sp, Reg::Sp, 0)));
        assert(self.state().instrs =~= s0.instrs + (push_code(Reg::Ra) + push_code(Reg::Fp)
            + seq![plain(Op::Addi(Reg::Fp, Reg::Sp, 0)), plain(Op::Addiu(Reg::Sp, Reg::Sp, 0))]));
        local_alloc_idx
    }

    /// After a function body: its result to `t0`, the frame size filled in at
    /// `local_alloc_idx`, the epilogue.
    fn emit_fn_epilogue(&mut self, fn_decl: &FnDeclaration, local_alloc_idx: usize) -> (r: Result<(), Error>)
        requires
            old(self).wf(),
        ensures
            final(self).wf(),
            final(self).state().values.len() == old(self).state().values.len(),
            match leave_frame(old(self).state(), fn_decl@, local_alloc_idx as int) {
                Ok(s) => r is Ok && final(self).state() == s,
                Err(e) => r matches Err(Error::CodeGen(x)) && x@ == e,
            },
    {
        let ghost f = fn_decl@;
        let ghost s3 = self.state();
        if !is_unit_result(&fn_decl.ty) {
            self.env.pop_from_stack(Reg::T0);
        } else if !is_main(fn_decl.id.as_str()) {
            self.push_unit();
            self.env.pop_from_stack(Reg::T0);
        }
        assert(self.state().instrs =~= s3.instrs + result_code(f));
        let ghost s4 = self.state();
        let count = self.env.fn_local_count;
        if count < 0 || count > 8191 {
            return Err(Error::CodeGen(CodeGenError::Overflow));
        }
        let frame_size: i16 = count * 4;
        if local_alloc_idx < self.env.instructions.len() {
            self.env.instructions.set(local_alloc_idx, mk(Op::Addiu(Reg::Sp, Reg::Sp, -frame_size)));
        }
        let ghost alloc = plain(Op::Addiu(Reg::Sp, Reg::Sp, (-(s4.fn_local_count * 4)) as i16));
        assert(self.state().instrs =~= patch(s4.instrs, local_alloc_idx as int, alloc));
        let ghost s5 = self.state();
        self.env.add_instr(mk(Op::Addi(Reg::Sp, Reg::Fp, 0)));
        self.env.pop_from_stack(Reg::Fp);
        self.env.pop_from_stack(Reg::Ra);
        if is_main(fn_decl.id.as_str()) {
            self.env.add_instr(mk(Op::Halt));
        } else {
            self.env.add_instr(mk(Op::Jr(Reg::Ra)));
        }
        assert(self.state().instrs =~= s5.instrs + epilogue_code(f));
        Ok(())
    }

    /// Generates the code of a program and gives its instructions: a jump to
    /// `main`, then each function at its label.
    #[verifier::rlimit(40)]
    pub fn codegen_prog(&mut self, prog: &Prog) -> (r: Result<Vec<Instr>, Error>)
        requires
            old(self).wf(),
        ensures
            final(self).wf(),
            instrs_outcome(r, cg_instrs(cg_prog(old(self).state(), prog@))),
            r is Ok ==> cg_prog(old(self).state(), prog@) == Ok::<CgState, SpecCodeGenError>(final(self).state()),
    {
        let ghost s0 = self.state();
        let ghost fs = prog@;
        let n = prog.0.len();
        let mut i: usize = 0;
        while i < n
            invariant
                n == prog.0@.len(),
                i <= n,
                fs == prog@,
                self.wf(),
                s0 == old(self).state(),
                define_fn_labels(s0, fs, 0) == define_fn_labels(self.state(), fs, i as int),
            decreases n - i,
        {
            assert(fs[i as int].id == prog.0@[i as int].id@);
            let ghost st = self.state();
            match self.env.define_function_label(prog.0[i].id.as_str()) {
                Ok(()) => {},
                Err(x) => {
                    assert(define_fn_labels(st, fs, i as int) == define_fn_label_spec(st, fs[i as int].id));
                    assert(cg_prog(s0, fs) == define_fn_labels(s0, fs, 0));
                    return Err(x);
                },
            }
            i = i + 1;
        }
        proof {
            reveal_strlit("main");
            assert("main"@ =~= main_name());
        }
        let main_label = match self.env.lookup_label("main") {
            Ok(l) => l,
            Err(x) => return Err(x),
        };
        self.env.add_instr(mk(Op::B(main_label)));
        match self.codegen_fns(prog) {
            Ok(()) => {},
            Err(x) => return Err(x),
        }
        Ok(copy_instrs(self.env.instructions()))
    }
}

impl CodegenVm {
    /// The code of the functions of a program, in order.
    fn codegen_fns(&mut self, prog: &Prog) -> (r: Result<(), Error>)
        requires
            old(self).wf(),
        ensures
            final(self).wf(),
            cg_outcome(r, cg_fns(old(self).state(), prog@, 0), final(self).state()),
    {
        let ghost s0 = self.state();
        let ghost fs = prog@;
        let n = prog.0.len();
        let mut i: usize = 0;
        while i < n
            invariant
                n == prog.0@.len(),
                i <= n,
                fs == prog@,
                self.wf(),
                s0 == old(self).state(),
                cg_fns(s0, fs, 0) == cg_fns(self.state(), fs, i as int),
            decreases n - i,
        {
            assert(fs[i as int] == fn_view(prog.0@[i as int]));
            let ghost st = self.state();
            match self.codegen_fn_decl(&prog.0[i]) {
                Ok(()) => {},
                Err(x) => {
                    assert(cg_fns(st, fs, i as int) == cg_fn_decl(st, fs[i as int]));
                    return Err(x);
                },
            }
            i = i + 1;
        }
        Ok(())
    }
}

/// The instructions of an expression, generated from scratch.
pub fn expr_instrs(expr: &Expr) -> (r: Result<Vec<Instr>, Error>)
    ensures
        instrs_outcome(r, cg_instrs(cg_expr(initial_cg(), expr@))),
{
    let mut cg = CodegenVm::new();
    match cg.codegen_expr(expr) {
        Ok(()) => Ok(copy_instrs(cg.instructions())),
        Err(e) => Err(e),
    }
}

/// The instructions of a block used as an expression, generated from scratch.
pub fn block_instrs(block: &Block) -> (r: Result<Vec<Instr>, Error>)
    ensures
        instrs_outcome(r, cg_instrs(cg_block_expr(initial_cg(), block@))),
{
    let mut cg = CodegenVm::new();
    match cg.codegen_block_expr(block) {
        Ok(()) => Ok(copy_instrs(cg.instructions())),
        Err(e) => Err(e),
    }
}

/// The instructions of a program, generated from scratch.
pub fn prog_instrs(prog: &Prog) -> (r: Result<Vec<Instr>, Error>)
    ensures
        instrs_outcome(r, cg_instrs(cg_prog(initial_cg(), prog@))),
{
    let mut cg = CodegenVm::new();
    cg.codegen_prog(prog)
}


// ---------------------------------------------------------------------------
// Assembly text

pub open spec fn reg_text(r: Reg) -> Seq<char> {
    match r {
        Reg::Zero => "zero"@,
        Reg::T0 => "t0"@,
        Reg::T1 => "t1"@,
        Reg::Sp => "sp"@,
        Reg::Fp => "fp"@,
        Reg::Ra => "ra"@,
    }
}

pub open spec fn rrr_text(name: Seq<char>, a: Reg, b: Reg, c: Reg) -> Seq<char> {
    name + " "@ + reg_text(a) + " "@ + reg_text(b) + " "@ + reg_text(c)
}

pub open spec fn rri_text(name: Seq<char>, a: Reg, b: Reg, i: i16) -> Seq<char> {
    name + " "@ + reg_text(a) + " "@ + reg_text(b) + " "@ + int_text(i as int)
}

pub open spec fn rir_text(name: Seq<char>, a: Reg, i: i16, b: Reg) -> Seq<char> {
    name + " "@ + reg_text(a) + " "@ + int_text(i as int) + " "@ + reg_text(b)
}

/// An operation as assembly: its mnemonic, then its operands separated by spaces.
pub open spec fn op_text(o: Op<Seq<char>>) -> Seq<char> {
    match o {
        Op::Add(a, b, c) => rrr_text("add"@, a, b, c),
        Op::Addu(a, b, c) => rrr_text("addu"@, a, b, c),
        Op::Sub(a, b, c) => rrr_text("sub"@, a, b, c),
        Op::Subu(a, b, c) => rrr_text("subu"@, a, b, c),
        Op::And(a, b, c) => rrr_text("and"@, a, b, c),
        Op::Or(a, b, c) => rrr_text("or"@, a, b, c),
        Op::Slt(a, b, c) => rrr_text("slt"@, a, b, c),
        Op::Addi(a, b, i) => rri_text("addi"@, a, b, i),
        Op::Addiu(a, b, i) => rri_text("addiu"@, a, b, i),
        Op::Xori(a, b, i) => rri_text("xori"@, a, b, i),
        Op::Lw(a, i, b) => rir_text("lw"@, a, i, b),
        Op::Sw(a, i, b) => rir_text("sw"@, a, i, b),
        Op::Beq(a, b, l) => "beq "@ + reg_text(a) + " "@ + reg_text(b) + " "@ + l,
        Op::B(l) => "b "@ + l,
        Op::Bal(l) => "bal "@ + l,
        Op::Jr(a) => "jr "@ + reg_text(a),
        Op::Halt => "halt"@,
    }
}

/// `n` spaces.
pub open spec fn spaces(n: int) -> Seq<char> {
    Seq::new(if n > 0 { n as nat } else { 0 }, |i: int| ' ')
}

/// The width of the label column.
pub const LABEL_WIDTH: usize = 10;

/// An instruction as a line of assembly: the label, padded to the label column,
/// a space, then the operation.
pub open spec fn instr_text(i: SpecInstr) -> Seq<char> {
    let l = match i.label {
        Some(l) => l,
        None => seq![],
    };
    l + spaces(LABEL_WIDTH - l.len()) + " "@ + op_text(i.op)
}

fn push_reg(out: &mut String, r: Reg)
    ensures
        final(out)@ == old(out)@ + reg_text(r),
{
    match r {
        Reg::Zero => push_str(out, "zero"),
        Reg::T0 => push_str(out, "t0"),
        Reg::T1 => push_str(out, "t1"),
        Reg::Sp => push_str(out, "sp"),
        Reg::Fp => push_str(out, "fp"),
        Reg::Ra => push_str(out, "ra"),
    }
}

fn push_rrr(out: &mut String, name: &str, a: Reg, b: Reg, c: Reg)
    ensures
        final(out)@ == old(out)@ + rrr_text(name@, a, b, c),
{
    push_str(out, name);
    push_str(out, " ");
    push_reg(out, a);
    push_str(out, " ");
    push_reg(out, b);
    push_str(out, " ");
    push_reg(out, c);
    assert(out@ =~= old(out)@ + rrr_text(name@, a, b, c));
}

fn push_rri(out: &mut String, name: &str, a: Reg, b: Reg, i: i16)
    ensures
        final(out)@ == old(out)@ + rri_text(name@, a, b, i),
{
    push_str(out, name);
    push_str(out, " ");
    push_reg(out, a);
    push_str(out, " ");
    push_reg(out, b);
    push_str(out, " ");
    push_i32(out, i as i32);
    assert(out@ =~= old(out)@ + rri_text(name@, a, b, i));
}

fn push_rir(out: &mut String, name: &str, a: Reg, i: i16, b: Reg)
    ensures
        final(out)@ == old(out)@ + rir_text(name@, a, i, b),
{
    push_str(out, name);
    push_str(out, " ");
    push_reg(out, a);
    push_str(out, " ");
    push_i32(out, i as i32);
    push_str(out, " ");
    push_reg(out, b);
    assert(out@ =~= old(out)@ + rir_text(name@, a, i, b));
}

fn push_op(out: &mut String, o: &Op<String>)
    ensures
        final(out)@ == old(out)@ + op_text(op_view(*o)),
{
    match o {
        Op::Add(a, b, c) => push_rrr(out, "add", *a, *b, *c),
        Op::Addu(a, b, c) => push_rrr(out, "addu", *a, *b, *c),
        Op::Sub(a, b, c) => push_rrr(out, "sub", *a, *b, *c),
        Op::Subu(a, b, c) => push_rrr(out, "subu", *a, *b, *c),
        Op::And(a, b, c) => push_rrr(out, "and", *a, *b, *c),
        Op::Or(a, b, c) => push_rrr(out, "or", *a, *b, *c),
        Op::Slt(a, b, c) => push_rrr(out, "slt", *a, *b, *c),
        Op::Addi(a, b, i) => push_rri(out, "addi", *a, *b, *i),
        Op::Addiu(a, b, i) => push_rri(out, "addiu", *a, *b, *i),
        Op::Xori(a, b, i) => push_rri(out, "xori", *a, *b, *i),
        Op::Lw(a, i, b) => push_rir(out, "lw", *a, *i, *b),
        Op::Sw(a, i, b) => push_rir(out, "sw", *a, *i, *b),
        _ => push_flow_op(out, o),
    }
}

/// The branches, jumps and `halt`.
fn push_flow_op(out: &mut String, o: &Op<String>)
    requires
        o is Beq || o is B || o is Bal || o is Jr || o is Halt,
    ensures
        final(out)@ == old(out)@ + op_text(op_view(*o)),
{
    match o {
        Op::Beq(a, b, l) => {
            push_str(out, "beq ");
            push_reg(out, *a);
            push_str(out, " ");
            push_reg(out, *b);
            push_str(out, " ");
            push_string(out, l);
            assert(out@ =~= old(out)@ + op_text(op_view(*o)));
        },
        Op::B(l) => {
            push_str(out, "b ");
            push_string(out, l);
        },
        Op::Bal(l) => {
            push_str(out, "bal ");
            push_string(out, l);
        },
        Op::Jr(a) => {
            push_str(out, "jr ");
            push_reg(out, *a);
        },
        _ => push_str(out, "halt"),
    }
}

impl Instr {
    /// The instruction as a line of assembly.
    pub fn to_string(&self) -> (s: String)
        ensures
            s@ == instr_text(self@),
    {
        let mut s = String::new();
        let mut n: usize = 0;
        match &self.label {
            Some(l) => {
                push_string(&mut s, l);
                n = l.unicode_len();
            },
            None => {},
        }
        let ghost l = s@;
        assert(s@ =~= l + spaces(n - l.len()));
        while n < LABEL_WIDTH
            invariant
                s@ == l + spaces(n - l.len()),
                l.len() <= n,
                n == l.len() || n <= LABEL_WIDTH,
            decreases LABEL_WIDTH - n,
        {
            push_char(&mut s, ' ');
            n = n + 1;
            assert(s@ =~= l + spaces(n - l.len()));
        }
        assert(spaces(n - l.len()) =~= spaces(LABEL_WIDTH - l.len()));
        push_str(&mut s, " ");
        push_op(&mut s, &self.op);
        assert(s@ =~= instr_text(self@));
        s
    }
}

/// The instructions as lines of assembly.
pub fn format_instrs(instrs: &Vec<Instr>) -> (lines: Vec<String>)
    ensures
        lines@.len() == instrs@.len(),
        forall|i: int| 0 <= i < instrs@.len() ==> (#[trigger] lines@[i])@ == instr_text(instrs@[i]@),
{
    let mut lines: Vec<String> = Vec::new();
    let mut i: usize = 0;
    while i < instrs.len()
        invariant
            i <= instrs@.len(),
            lines@.len() == i,
            forall|j: int| 0 <= j < i ==> (#[trigger] lines@[j])@ == instr_text(instrs@[j]@),
        decreases instrs@.len() - i,
    {
        lines.push(instrs[i].to_string());
        i = i + 1;
    }
    lines
}


impl Default for CodegenVm {
    fn default() -> (cg: Self)
        ensures
            cg.wf(),
            cg.state() == initial_cg(),
    {
        CodegenVm::new()
    }
}

} // verus!
