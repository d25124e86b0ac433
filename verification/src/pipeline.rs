use vstd::prelude::*;
use crate::ast::Prog;
use crate::env::TypeScopes;
use crate::error::Error;
use crate::parse::{parse_source, try_parse};
use crate::type_check::{TcState, TypeChecker, tc_prog};
use crate::diagnostic::{Diagnostic, Diagnostics, diagnostics_view, error_diagnostic, type_error_diagnostic, val_text};
use crate::view::{AstNode, prog_node};
use crate::vm::{DEFAULT_FUEL, Val, VM, eval_prog_spec, initial_machine};
use crate::code_gen::{cg_instrs, cg_prog, format_instrs, initial_cg, instr_text, prog_instrs};

verus! {

/// The state a new type checker starts in.
pub open spec fn initial_tc() -> TcState {
    TcState { scopes: TypeScopes { bindings: seq![Map::empty()], functions: seq![Map::empty()] }, errors: seq![] }
}

/// Parses a program and type checks it. The program comes back where the checker
/// found no error; otherwise the first error it found.
pub fn frontend(raw: &str) -> (r: Result<Prog, Error>)
    ensures
        match r {
            Ok(p) => parse_source::<Prog>(raw@) == Ok::<_, crate::error::ParseError>(p@)
                && tc_prog(initial_tc(), p@).1.errors.len() == 0,
            Err(Error::Parse(e)) => parse_source::<Prog>(raw@) == Err::<Seq<crate::ast::SpecFnDecl>, _>(e),
            Err(Error::Type(e)) => parse_source::<Prog>(raw@) matches Ok(pv)
                && tc_prog(initial_tc(), pv).1.errors.len() > 0
                && e@ == tc_prog(initial_tc(), pv).1.errors[0],
            Err(_) => false,
        },
{
    let prog: Prog = match try_parse::<Prog>(raw) {
        Ok(p) => p,
        Err(e) => return Err(Error::Parse(e)),
    };
    let mut errors = {
        let mut type_checker = TypeChecker::new();
        type_checker.check_prog(&prog);
        type_checker.errors
    };
    if errors.len() == 0 {
        Ok(prog)
    } else {
        Err(Error::Type(errors.remove(0)))
    }
}

/// Runs a program in a new virtual machine.
pub fn interpret(prog: &Prog) -> (r: Result<Val, Error>)
    ensures
        match r {
            Ok(v) => eval_prog_spec(DEFAULT_FUEL as nat, initial_machine(), prog@) matches Ok((sv, _)) && sv == v@,
            Err(Error::Vm(e)) => eval_prog_spec(DEFAULT_FUEL as nat, initial_machine(), prog@) == Err::<
                (crate::vm::SpecVal, crate::env::Machine),
                crate::error::SpecVmError,
            >(e@),
            Err(_) => false,
        },
{
    let mut vm = VM::new();
    vm.eval_prog(prog)
}

/// Generates the code of a program and gives it as lines of assembly.
pub fn code_gen(prog: &Prog) -> (r: Result<Vec<String>, Error>)
    ensures
        match cg_instrs(cg_prog(initial_cg(), prog@)) {
            Ok(is) => r matches Ok(lines) && lines@.len() == is.len()
                && forall|i: int| 0 <= i < is.len() ==> (#[trigger] lines@[i])@ == instr_text(is[i]),
            Err(e) => r matches Err(Error::CodeGen(x)) && x@ == e,
        },
{
    match prog_instrs(prog) {
        Ok(instrs) => {
            let lines = format_instrs(&instrs);
            proof {
                assert forall|i: int| 0 <= i < instrs@.len() implies instrs@[i]@ == crate::code_gen::instrs_view(instrs@)[i] by {}
            }
            Ok(lines)
        },
        Err(e) => Err(e),
    }
}

/// Runs a program in a new virtual machine; gives its value and what it printed.
pub fn run_program(prog: &Prog) -> (r: Result<(Val, String), Error>)
    ensures
        match r {
            Ok((v, out)) => eval_prog_spec(DEFAULT_FUEL as nat, initial_machine(), prog@) matches Ok((sv, m))
                && sv == v@ && m.out == out@,
            Err(Error::Vm(e)) => eval_prog_spec(DEFAULT_FUEL as nat, initial_machine(), prog@) == Err::<
                (crate::vm::SpecVal, crate::env::Machine),
                crate::error::SpecVmError,
            >(e@),
            Err(_) => false,
        },
{
    let mut vm = VM::new();
    match vm.eval_prog(prog) {
        Ok(v) => {
            let out = vm.stdout().clone();
            Ok((v, out))
        },
        Err(e) => Err(e),
    }
}

/// What compiling and running a source gives: diagnostics, the value of the program
/// and what it printed where it ran, and its syntax tree where it parsed.
#[derive(Debug)]
pub struct CompileResult {
    pub diagnostics: Diagnostics,
    pub result: Option<String>,
    pub stdout: Option<String>,
    pub ast: Option<AstNode>,
}

/// Parses, type checks and runs `source`. A parse error gives its diagnostic; type
/// errors give one diagnostic each and the tree; an error of evaluation gives its
/// diagnostic and the tree; otherwise the value, the printed text and the tree.
pub fn compile_impl(source: &str) -> (c: CompileResult)
    ensures
        match parse_source::<Prog>(source@) {
            Err(e) => {
                &&& diagnostics_view(c.diagnostics.0@) == seq![error_diagnostic(Error::Parse(e))]
                &&& c.ast is None
                &&& c.result is None
                &&& c.stdout is None
            },
            Ok(pv) => (c.ast matches Some(a) && a@ == prog_node(pv)) && {
                let errs = tc_prog(initial_tc(), pv).1.errors;
                if errs.len() > 0 {
                    &&& diagnostics_view(c.diagnostics.0@) == errs.map_values(|e| type_error_diagnostic(e))
                    &&& c.result is None
                    &&& c.stdout is None
                } else {
                    match eval_prog_spec(DEFAULT_FUEL as nat, initial_machine(), pv) {
                        Ok((v, m)) => {
                            &&& c.diagnostics.0@.len() == 0
                            &&& c.result matches Some(t) && t@ == val_text(v)
                            &&& c.stdout matches Some(o) && o@ == m.out
                        },
                        Err(e) => c.result is None && c.stdout is None && c.diagnostics.0@.len() == 1
                            && diagnostics_view(c.diagnostics.0@)[0] == crate::diagnostic::note(
                            crate::diagnostic::vm_error_text(e),
                            crate::diagnostic::Severity::Error,
                            None,
                        ),
                    }
                }
            },
        },
{
    let prog: Prog = match try_parse::<Prog>(source) {
        Ok(p) => p,
        Err(e) => {
            let d = Diagnostic::from_error(Error::Parse(e));
            let mut ds = Diagnostics(Vec::new());
            ds.push(d);
            assert(diagnostics_view(ds.0@) =~= seq![error_diagnostic(Error::Parse(e))]);
            return CompileResult { diagnostics: ds, result: None, stdout: None, ast: None };
        },
    };
    let ast = AstNode::from_prog(&prog);
    let mut errors = {
        let mut type_checker = TypeChecker::new();
        type_checker.check_prog(&prog);
        type_checker.errors
    };
    if errors.len() > 0 {
        let ghost ev = errors@.map_values(|e: crate::type_check::TypeError| e@);
        let mut ds = Diagnostics(Vec::new());
        let n = errors.len();
        let mut i: usize = 0;
        while i < n
            invariant
                n == errors@.len(),
                i <= n,
                ev == errors@.map_values(|e: crate::type_check::TypeError| e@),
                diagnostics_view(ds.0@) =~= ev.subrange(0, i as int).map_values(|e| type_error_diagnostic(e)),
            decreases n - i,
        {
            let e = errors[i].copy();
            let d = Diagnostic::from_type_error(e);
            let ghost before = ds.0@;
            ds.push(d);
            assert(diagnostics_view(ds.0@) =~= diagnostics_view(before).push(d@));
            i = i + 1;
        }
        assert(ev.subrange(0, n as int) =~= ev);
        return CompileResult { diagnostics: ds, result: None, stdout: None, ast: Some(ast) };
    }
    match run_program(&prog) {
        Ok((v, out)) => {
            let ds = Diagnostics(Vec::new());
            assert(ds.0@.len() == 0);
            CompileResult { diagnostics: ds, result: Some(v.to_string()), stdout: Some(out), ast: Some(ast) }
        },
        Err(e) => {
            let d = Diagnostic::from_error(e);
            let mut ds = Diagnostics(Vec::new());
            ds.push(d);
            assert(diagnostics_view(ds.0@) =~= seq![d@]);
            CompileResult { diagnostics: ds, result: None, stdout: None, ast: Some(ast) }
        },
    }
}

} // verus!
