use vstd::prelude::*;
use crate::display::{literal_text, type_text};
use crate::error::{Error, ErrRange, ParseError, ParseErrorKind, Expected, SpecVmError, VmError};
use crate::lexer::push_char;
use crate::text::{nat_text, push_nat, push_str, push_string};
use crate::type_check::{AssignmentErrorKind, SpecTypeError, Ty, TypeError};
use crate::vm::SpecVal;

verus! {

#[derive(Debug, Clone, Copy, PartialEq, Eq, Structural)]
pub enum Severity {
    Error,
    Warning,
    Info,
    Help,
}

/// A message for the user about a range of the source, with notes that relate to it.
#[derive(Debug)]
pub struct Diagnostic {
    pub message: String,
    pub severity: Severity,
    pub range: Option<ErrRange>,
    pub related: Vec<Diagnostic>,
}

/// The mathematical counterpart of [`Diagnostic`].
pub struct SpecDiagnostic {
    pub message: Seq<char>,
    pub severity: Severity,
    pub range: Option<ErrRange>,
    pub related: Seq<SpecDiagnostic>,
}

pub open spec fn diagnostic_view(d: Diagnostic) -> SpecDiagnostic
    decreases d,
{
    SpecDiagnostic {
        message: d.message@,
        severity: d.severity,
        range: d.range,
        related: Seq::new(
            d.related@.len(),
            |i: int| if 0 <= i < d.related@.len() { diagnostic_view(d.related@[i]) } else { arbitrary() },
        ),
    }
}

impl View for Diagnostic {
    type V = SpecDiagnostic;

    open spec fn view(&self) -> SpecDiagnostic {
        diagnostic_view(*self)
    }
}

/// A list of diagnostics.
#[derive(Debug)]
pub struct Diagnostics(pub Vec<Diagnostic>);

impl Diagnostics {
    pub fn push(&mut self, diagnostic: Diagnostic)
        ensures
            final(self).0@ == old(self).0@.push(diagnostic),
    {
        self.0.push(diagnostic);
    }

    pub fn extend(&mut self, other: Diagnostics)
        ensures
            final(self).0@ == old(self).0@ + other.0@,
    {
        let mut other = other;
        self.0.append(&mut other.0);
    }

    pub fn is_empty(&self) -> (b: bool)
        ensures
            b == (self.0@.len() == 0),
    {
        self.0.len() == 0
    }
}

// ---------------------------------------------------------------------------
// Messages

/// A note without notes of its own.
pub open spec fn note(message: Seq<char>, severity: Severity, range: Option<ErrRange>) -> SpecDiagnostic {
    SpecDiagnostic { message, severity, range, related: seq![] }
}

/// A type as it is named in messages.
pub open spec fn ty_text(t: Ty) -> Seq<char> {
    match t.ty {
        Some(x) => type_text(x),
        None => "{unknown}"@,
    }
}

pub open spec fn backticked(s: Seq<char>) -> Seq<char> {
    "`"@ + s + "`"@
}

/// What the user is told about a type error.
pub open spec fn type_error_diagnostic(e: SpecTypeError) -> SpecDiagnostic {
    match e {
        SpecTypeError::TypeMismatch { expected, got, span } => SpecDiagnostic {
            message: "mismatched types: expected "@ + backticked(ty_text(expected)) + ", got "@ + backticked(ty_text(got)),
            severity: Severity::Error,
            range: Some(span),
            related: seq![
                note("expected type "@ + backticked(ty_text(expected)) + " originates here"@, Severity::Info, Some(expected.span)),
                note("actual type "@ + backticked(ty_text(got)) + " originates here"@, Severity::Info, Some(got.span)),
            ],
        },
        SpecTypeError::UnknownFunction { name, span } => note(
            "cannot find function "@ + backticked(name) + " in this scope"@,
            Severity::Error,
            Some(span),
        ),
        SpecTypeError::UnknownVariable { name, span } => note(
            "cannot find variable "@ + backticked(name) + " in this scope"@,
            Severity::Error,
            Some(span),
        ),
        SpecTypeError::Assignment { kind, span, decl_span } => match kind {
            AssignmentErrorKind::NotIdent => SpecDiagnostic {
                message: "invalid assignment target"@,
                severity: Severity::Error,
                range: Some(span),
                related: seq![
                    note("only variables may appear on the left-hand side of an assignment"@, Severity::Info, Some(span)),
                ],
            },
            AssignmentErrorKind::NotFound => note("cannot assign to an unknown variable"@, Severity::Error, Some(span)),
            AssignmentErrorKind::NotMutable => SpecDiagnostic {
                message: "cannot assign to immutable variable"@,
                severity: Severity::Error,
                range: Some(span),
                related: seq![note("consider declaring the variable with `mut`"@, Severity::Info, Some(decl_span))],
            },
        },
        SpecTypeError::Duplicate { kind, name, first_span, second_span } => SpecDiagnostic {
            message: "duplicate function "@ + backticked(name),
            severity: Severity::Error,
            range: Some(second_span),
            related: seq![note("previous definition is here"@, Severity::Info, Some(first_span))],
        },
        SpecTypeError::Uninitialized { name, span } => SpecDiagnostic {
            message: "variable "@ + backticked(name) + " may be uninitialized"@,
            severity: Severity::Error,
            range: Some(span),
            related: seq![note("initialize the variable before it is used"@, Severity::Info, None)],
        },
        SpecTypeError::ParameterArityMismatch { id, expected, got, call_span, fn_span } => SpecDiagnostic {
            message: "function "@ + backticked(id) + " expects "@ + nat_text(expected as nat) + " arguments but "@
                + nat_text(got as nat) + " were supplied"@,
            severity: Severity::Error,
            range: Some(call_span),
            related: seq![note("function declaration is here"@, Severity::Info, Some(fn_span))],
        },
    }
}

/// A run-time value as it is named in messages.
pub open spec fn val_text(v: SpecVal) -> Seq<char> {
    match v {
        SpecVal::Lit(l) => literal_text(l),
        SpecVal::UnInit => "an uninitialized value"@,
        SpecVal::Mut(_) => "a mutable binding"@,
    }
}

/// The text of an evaluation error.
pub open spec fn vm_error_text(e: SpecVmError) -> Seq<char> {
    match e {
        SpecVmError::NoMainFound => "No Main function found"@,
        SpecVmError::NoValFound(id) => "Failed to find Val with id "@ + id,
        SpecVmError::NoFunctionFound(id) => "Failed to find Function with id "@ + id,
        SpecVmError::IllegalAssignment(lhs) => "Invalid assignment target: "@ + lhs,
        SpecVmError::ParameterArityMismatch { id, expected, got } => "Function "@ + id + " expected "@
            + nat_text(expected as nat) + " parameters, got "@ + nat_text(got as nat),
        SpecVmError::TypeMismatch { expected, got } => "type mismatch: expected "@ + type_text(expected) + ", got "@
            + val_text(got),
        SpecVmError::DivisionByZero => "attempt to divide by zero"@,
        SpecVmError::Overflow => "attempt to compute an integer outside the range of i32"@,
        SpecVmError::OutOfFuel => "evaluation ran out of fuel"@,
    }
}

pub open spec fn expected_text(x: Expected) -> Seq<char> {
    match x {
        Expected::Semi => "`;`"@,
        Expected::Comma => "`,`"@,
        Expected::Colon => "`:`"@,
        Expected::OpenParen => "`(`"@,
        Expected::CloseParen => "`)`"@,
        Expected::OpenBrace => "`{`"@,
        Expected::CloseBrace => "`}`"@,
        Expected::Ident => "an identifier"@,
        Expected::Fn => "`fn`"@,
    }
}

/// The text of a parse error.
pub open spec fn parse_error_text(k: ParseErrorKind) -> Seq<char> {
    match k {
        ParseErrorKind::UnexpectedChar(c) => "unexpected character "@ + backticked(seq![c]),
        ParseErrorKind::UnterminatedString => "unterminated string literal"@,
        ParseErrorKind::InvalidEscape => "invalid escape in string literal"@,
        ParseErrorKind::IntTooLarge => "integer literal is too large"@,
        ParseErrorKind::InvalidLiteral => "invalid literal"@,
        ParseErrorKind::UnexpectedEnd => "unexpected end of input"@,
        ParseErrorKind::UnexpectedToken => "unexpected token"@,
        ParseErrorKind::Expected(x) => "expected "@ + expected_text(x),
        ParseErrorKind::InvalidOperand => "expected an expression"@,
        ParseErrorKind::ExpectedOperator => "expected a binary operator"@,
        ParseErrorKind::ExpectedUnaryOperator => "expected a unary operator"@,
        ParseErrorKind::UnsupportedType => "expected one of the types `i32`, `bool`, `String`, `()`"@,
        ParseErrorKind::ExpectedUnit => "expected `()` (unit), found expression"@,
        ParseErrorKind::ExpectedLiteral => "expected a literal"@,
    }
}

/// What the user is told about any error: a type error in full; an evaluation
/// error by its text alone; a parse error with its range.
pub open spec fn error_diagnostic(e: Error) -> SpecDiagnostic {
    match e {
        Error::Type(t) => type_error_diagnostic(t@),
        Error::Vm(v) => note(vm_error_text(v@), Severity::Error, None),
        Error::Parse(p) => note(parse_error_text(p.kind), Severity::Error, Some(p.span)),
        Error::CodeGen(c) => note(code_gen_error_text(c), Severity::Error, None),
    }
}

pub open spec fn code_gen_error_text(e: crate::error::CodeGenError) -> Seq<char> {
    match e {
        crate::error::CodeGenError::UnsupportedLiteral(l) => "Unsupported Literal "@ + literal_text(l@),
        crate::error::CodeGenError::UnsupportedOperator(op) => "Unsupported operator "@ + crate::display::binop_text(op),
        crate::error::CodeGenError::UndefinedFunction(id) => "undefined function "@ + backticked(id@),
        crate::error::CodeGenError::UndefinedValue(id) => "undefined value "@ + backticked(id@),
        crate::error::CodeGenError::AssignmentToNonIdent(lhs) => "cannot assign to "@ + lhs@,
        crate::error::CodeGenError::Overflow => "generated code does not fit 16-bit offsets"@,
    }
}

// ---------------------------------------------------------------------------
// Building diagnostics

pub open spec fn diagnostics_view(v: Seq<Diagnostic>) -> Seq<SpecDiagnostic> {
    Seq::new(v.len(), |i: int| if 0 <= i < v.len() { diagnostic_view(v[i]) } else { arbitrary() })
}

fn leaf(message: String, severity: Severity, range: Option<ErrRange>) -> (d: Diagnostic)
    ensures
        d@ == note(message@, severity, range),
{
    let d = Diagnostic { message, severity, range, related: Vec::new() };
    assert(d@.related =~= seq![]);
    d
}

fn with_notes(message: String, severity: Severity, range: Option<ErrRange>, related: Vec<Diagnostic>) -> (d: Diagnostic)
    ensures
        d@ == (SpecDiagnostic { message: message@, severity, range, related: diagnostics_view(related@) }),
{
    let d = Diagnostic { message, severity, range, related };
    assert(d@.related =~= diagnostics_view(related@));
    d
}

fn one_note(n: Diagnostic) -> (v: Vec<Diagnostic>)
    ensures
        diagnostics_view(v@) == seq![n@],
{
    let mut v = Vec::new();
    v.push(n);
    assert(diagnostics_view(v@) =~= seq![n@]);
    v
}

fn two_notes(a: Diagnostic, b: Diagnostic) -> (v: Vec<Diagnostic>)
    ensures
        diagnostics_view(v@) == seq![a@, b@],
{
    let mut v = Vec::new();
    v.push(a);
    v.push(b);
    assert(diagnostics_view(v@) =~= seq![a@, b@]);
    v
}

fn push_ty(out: &mut String, t: Ty)
    ensures
        final(out)@ == old(out)@ + ty_text(t),
{
    match t.ty {
        Some(x) => {
            let s = x.to_string();
            push_string(out, &s);
        },
        None => push_str(out, "{unknown}"),
    }
}

fn push_backticked(out: &mut String, s: &String)
    ensures
        final(out)@ == old(out)@ + backticked(s@),
{
    push_str(out, "`");
    push_string(out, s);
    push_str(out, "`");
    assert(final(out)@ =~= old(out)@ + backticked(s@));
}

fn backticked_ty(t: Ty) -> (s: String)
    ensures
        s@ == backticked(ty_text(t)),
{
    let mut s = String::new();
    push_str(&mut s, "`");
    push_ty(&mut s, t);
    push_str(&mut s, "`");
    assert(s@ =~= backticked(ty_text(t)));
    s
}

/// `a`, then `b`, then `c`.
fn concat3(a: &str, b: &String, c: &str) -> (s: String)
    ensures
        s@ == a@ + b@ + c@,
{
    let mut s = String::new();
    push_str(&mut s, a);
    push_string(&mut s, b);
    push_str(&mut s, c);
    assert(s@ =~= a@ + b@ + c@);
    s
}

impl Diagnostic {
    /// What the user is told about a type error.
    pub fn from_type_error(err: TypeError) -> (d: Diagnostic)
        ensures
            d@ == type_error_diagnostic(err@),
    {
        match err {
            TypeError::TypeMismatch { expected, got, span } => {
                let e = backticked_ty(expected);
                let g = backticked_ty(got);
                let mut message = String::new();
                push_str(&mut message, "mismatched types: expected ");
                push_string(&mut message, &e);
                push_str(&mut message, ", got ");
                push_string(&mut message, &g);
                assert(message@ =~= "mismatched types: expected "@ + backticked(ty_text(expected)) + ", got "@
                    + backticked(ty_text(got)));
                let n1 = leaf(concat3("expected type ", &e, " originates here"), Severity::Info, Some(expected.span));
                let n2 = leaf(concat3("actual type ", &g, " originates here"), Severity::Info, Some(got.span));
                with_notes(message, Severity::Error, Some(span), two_notes(n1, n2))
            },
            TypeError::UnknownFunction { name, span } => {
                let mut b = String::new();
                push_backticked(&mut b, &name);
                assert(b@ =~= backticked(name@));
                leaf(concat3("cannot find function ", &b, " in this scope"), Severity::Error, Some(span))
            },
            TypeError::UnknownVariable { name, span } => {
                let mut b = String::new();
                push_backticked(&mut b, &name);
                assert(b@ =~= backticked(name@));
                leaf(concat3("cannot find variable ", &b, " in this scope"), Severity::Error, Some(span))
            },
            TypeError::Assignment { kind, span, decl_span } => match kind {
                AssignmentErrorKind::NotIdent => {
                    let n = leaf(
                        "only variables may appear on the left-hand side of an assignment".to_owned(),
                        Severity::Info,
                        Some(span),
                    );
                    with_notes("invalid assignment target".to_owned(), Severity::Error, Some(span), one_note(n))
                },
                AssignmentErrorKind::NotFound => leaf(
                    "cannot assign to an unknown variable".to_owned(),
                    Severity::Error,
                    Some(span),
                ),
                AssignmentErrorKind::NotMutable => {
                    let n = leaf("consider declaring the variable with `mut`".to_owned(), Severity::Info, Some(decl_span));
                    with_notes("cannot assign to immutable variable".to_owned(), Severity::Error, Some(span), one_note(n))
                },
            },
            TypeError::Duplicate { kind, name, first_span, second_span } => {
                let mut message = String::new();
                push_str(&mut message, "duplicate function ");
                push_backticked(&mut message, &name);
                let n = leaf("previous definition is here".to_owned(), Severity::Info, Some(first_span));
                with_notes(message, Severity::Error, Some(second_span), one_note(n))
            },
            TypeError::Uninitialized { name, span } => {
                let mut b = String::new();
                push_backticked(&mut b, &name);
                assert(b@ =~= backticked(name@));
                let n = leaf("initialize the variable before it is used".to_owned(), Severity::Info, None);
                with_notes(concat3("variable ", &b, " may be uninitialized"), Severity::Error, Some(span), one_note(n))
            },
            TypeError::ParameterArityMismatch { id, expected, got, call_span, fn_span } => {
                let mut message = String::new();
                push_str(&mut message, "function ");
                push_backticked(&mut message, &id);
                push_str(&mut message, " expects ");
                push_nat(&mut message, expected as u64);
                push_str(&mut message, " arguments but ");
                push_nat(&mut message, got as u64);
                push_str(&mut message, " were supplied");
                assert(message@ =~= "function "@ + backticked(id@) + " expects "@ + nat_text(expected as nat)
                    + " arguments but "@ + nat_text(got as nat) + " were supplied"@);
                let n = leaf("function declaration is here".to_owned(), Severity::Info, Some(fn_span));
                with_notes(message, Severity::Error, Some(call_span), one_note(n))
            },
        }
    }

    /// What the user is told about any error.
    pub fn from_error(err: Error) -> (d: Diagnostic)
        ensures
            d@ == error_diagnostic(err),
    {
        match err {
            Error::Type(t) => Diagnostic::from_type_error(t),
            Error::Vm(v) => leaf(v.to_string(), Severity::Error, None),
            Error::Parse(p) => leaf(p.to_string(), Severity::Error, Some(p.span)),
            Error::CodeGen(c) => leaf(c.to_string(), Severity::Error, None),
        }
    }
}

impl Error {
    /// The diagnostics for this error: one.
    pub fn to_diagnostics(self) -> (v: Vec<Diagnostic>)
        ensures
            diagnostics_view(v@) == seq![error_diagnostic(self)],
    {
        let d = Diagnostic::from_error(self);
        one_note(d)
    }
}

fn push_val(out: &mut String, v: &crate::vm::Val)
    ensures
        final(out)@ == old(out)@ + val_text(v@),
{
    match v {
        crate::vm::Val::Lit(l) => {
            let s = l.to_string();
            push_string(out, &s);
        },
        crate::vm::Val::UnInit => push_str(out, "an uninitialized value"),
        crate::vm::Val::Mut(_) => push_str(out, "a mutable binding"),
    }
}

impl VmError {
    /// The error as text.
    pub fn to_string(&self) -> (s: String)
        ensures
            s@ == vm_error_text(self@),
    {
        let mut s = String::new();
        match self {
            VmError::NoMainFound => push_str(&mut s, "No Main function found"),
            VmError::NoValFound(id) => {
                push_str(&mut s, "Failed to find Val with id ");
                push_string(&mut s, id);
            },
            VmError::NoFunctionFound(id) => {
                push_str(&mut s, "Failed to find Function with id ");
                push_string(&mut s, id);
            },
            VmError::IllegalAssignment(lhs) => {
                push_str(&mut s, "Invalid assignment target: ");
                push_string(&mut s, lhs);
            },
            VmError::ParameterArityMismatch { id, expected, got } => {
                push_str(&mut s, "Function ");
                push_string(&mut s, id);
                push_str(&mut s, " expected ");
                push_nat(&mut s, *expected as u64);
                push_str(&mut s, " parameters, got ");
                push_nat(&mut s, *got as u64);
            },
            VmError::TypeMismatch { expected, got } => {
                push_str(&mut s, "type mismatch: expected ");
                let t = expected.to_string();
                push_string(&mut s, &t);
                push_str(&mut s, ", got ");
                push_val(&mut s, got);
            },
            VmError::DivisionByZero => push_str(&mut s, "attempt to divide by zero"),
            VmError::Overflow => push_str(&mut s, "attempt to compute an integer outside the range of i32"),
            VmError::OutOfFuel => push_str(&mut s, "evaluation ran out of fuel"),
        }
        assert(s@ =~= vm_error_text(self@));
        s
    }
}

fn push_expected(out: &mut String, x: Expected)
    ensures
        final(out)@ == old(out)@ + expected_text(x),
{
    let t: &str = match x {
        Expected::Semi => "`;`",
        Expected::Comma => "`,`",
        Expected::Colon => "`:`",
        Expected::OpenParen => "`(`",
        Expected::CloseParen => "`)`",
        Expected::OpenBrace => "`{`",
        Expected::CloseBrace => "`}`",
        Expected::Ident => "an identifier",
        Expected::Fn => "`fn`",
    };
    push_str(out, t);
}

impl ParseError {
    /// The error as text, without its range.
    pub fn to_string(&self) -> (s: String)
        ensures
            s@ == parse_error_text(self.kind),
    {
        let mut s = String::new();
        match self.kind {
            ParseErrorKind::UnexpectedChar(c) => {
                push_str(&mut s, "unexpected character ");
                push_str(&mut s, "`");
                push_char(&mut s, c);
                push_str(&mut s, "`");
            },
            ParseErrorKind::UnterminatedString => push_str(&mut s, "unterminated string literal"),
            ParseErrorKind::InvalidEscape => push_str(&mut s, "invalid escape in string literal"),
            ParseErrorKind::IntTooLarge => push_str(&mut s, "integer literal is too large"),
            ParseErrorKind::InvalidLiteral => push_str(&mut s, "invalid literal"),
            ParseErrorKind::UnexpectedEnd => push_str(&mut s, "unexpected end of input"),
            ParseErrorKind::UnexpectedToken => push_str(&mut s, "unexpected token"),
            ParseErrorKind::Expected(x) => {
                push_str(&mut s, "expected ");
                push_expected(&mut s, x);
            },
            ParseErrorKind::InvalidOperand => push_str(&mut s, "expected an expression"),
            ParseErrorKind::ExpectedOperator => push_str(&mut s, "expected a binary operator"),
            ParseErrorKind::ExpectedUnaryOperator => push_str(&mut s, "expected a unary operator"),
            ParseErrorKind::UnsupportedType => push_str(&mut s, "expected one of the types `i32`, `bool`, `String`, `()`"),
            ParseErrorKind::ExpectedUnit => push_str(&mut s, "expected `()` (unit), found expression"),
            ParseErrorKind::ExpectedLiteral => push_str(&mut s, "expected a literal"),
        }
        assert(s@ =~= parse_error_text(self.kind));
        s
    }
}

impl crate::error::CodeGenError {
    /// The error as text.
    pub fn to_string(&self) -> (s: String)
        ensures
            s@ == code_gen_error_text(*self),
    {
        let mut s = String::new();
        match self {
            crate::error::CodeGenError::UnsupportedLiteral(l) => {
                push_str(&mut s, "Unsupported Literal ");
                let t = l.to_string();
                push_string(&mut s, &t);
            },
            crate::error::CodeGenError::UnsupportedOperator(op) => {
                push_str(&mut s, "Unsupported operator ");
                let t = op.to_string();
                push_string(&mut s, &t);
            },
            crate::error::CodeGenError::UndefinedFunction(id) => {
                push_str(&mut s, "undefined function ");
                push_backticked(&mut s, id);
            },
            crate::error::CodeGenError::UndefinedValue(id) => {
                push_str(&mut s, "undefined value ");
                push_backticked(&mut s, id);
            },
            crate::error::CodeGenError::AssignmentToNonIdent(lhs) => {
                push_str(&mut s, "cannot assign to ");
                push_string(&mut s, lhs);
            },
            crate::error::CodeGenError::Overflow => {
                push_str(&mut s, "generated code does not fit 16-bit offsets");
            },
        }
        assert(s@ =~= code_gen_error_text(*self));
        s
    }
}

impl crate::vm::Val {
    /// The value as it is shown to the user: a literal in source form.
    pub fn to_string(&self) -> (s: String)
        ensures
            s@ == val_text(self@),
    {
        let mut s = String::new();
        push_val(&mut s, self);
        assert(s@ =~= val_text(self@));
        s
    }
}


/// A range as text: `l<line>, c<column> to l<line>, c<column>`.
pub open spec fn range_text(r: ErrRange) -> Seq<char> {
    "l"@ + nat_text(r.start_line as nat) + ", c"@ + nat_text(r.start_column as nat) + " to l"@
        + nat_text(r.end_line as nat) + ", c"@ + nat_text(r.end_column as nat)
}

impl ErrRange {
    /// The range as text: `l<line>, c<column> to l<line>, c<column>`.
    pub fn to_string(&self) -> (s: String)
        ensures
            s@ == range_text(*self),
    {
        let mut s = String::new();
        push_str(&mut s, "l");
        push_nat(&mut s, self.start_line as u64);
        push_str(&mut s, ", c");
        push_nat(&mut s, self.start_column as u64);
        push_str(&mut s, " to l");
        push_nat(&mut s, self.end_line as u64);
        push_str(&mut s, ", c");
        push_nat(&mut s, self.end_column as u64);
        assert(s@ =~= range_text(*self));
        s
    }
}


pub open spec fn assignment_kind_text(k: AssignmentErrorKind) -> Seq<char> {
    match k {
        AssignmentErrorKind::NotIdent => "NotIdent"@,
        AssignmentErrorKind::NotFound => "NotFound"@,
        AssignmentErrorKind::NotMutable => "NotMutable"@,
    }
}

/// A type error as one line of text.
pub open spec fn type_error_text(e: SpecTypeError) -> Seq<char> {
    match e {
        SpecTypeError::TypeMismatch { expected, got, .. } => "Type mismatch: expected "@ + ty_text(expected) + ", got "@
            + ty_text(got),
        SpecTypeError::UnknownFunction { name, .. } => "Undefined function "@ + backticked(name),
        SpecTypeError::UnknownVariable { name, .. } => "Undefined variable "@ + backticked(name),
        SpecTypeError::Assignment { kind, .. } => "Assignment error: "@ + assignment_kind_text(kind),
        SpecTypeError::Duplicate { name, .. } => "Duplicate Function "@ + backticked(name),
        SpecTypeError::Uninitialized { name, .. } => "Uninitialized value "@ + backticked(name),
        SpecTypeError::ParameterArityMismatch { id, expected, got, .. } => id + " expected "@ + nat_text(expected as nat)
            + " parameters, got "@ + nat_text(got as nat) + " arguments"@,
    }
}

impl TypeError {
    /// The error as one line of text.
    pub fn to_string(&self) -> (s: String)
        ensures
            s@ == type_error_text(self@),
    {
        let mut s = String::new();
        match self {
            TypeError::TypeMismatch { expected, got, .. } => {
                push_str(&mut s, "Type mismatch: expected ");
                push_ty(&mut s, *expected);
                push_str(&mut s, ", got ");
                push_ty(&mut s, *got);
            },
            TypeError::UnknownFunction { name, .. } => {
                push_str(&mut s, "Undefined function ");
                push_backticked(&mut s, name);
            },
            TypeError::UnknownVariable { name, .. } => {
                push_str(&mut s, "Undefined variable ");
                push_backticked(&mut s, name);
            },
            TypeError::Assignment { kind, .. } => {
                push_str(&mut s, "Assignment error: ");
                match kind {
                    AssignmentErrorKind::NotIdent => push_str(&mut s, "NotIdent"),
                    AssignmentErrorKind::NotFound => push_str(&mut s, "NotFound"),
                    AssignmentErrorKind::NotMutable => push_str(&mut s, "NotMutable"),
                }
            },
            TypeError::Duplicate { name, .. } => {
                push_str(&mut s, "Duplicate Function ");
                push_backticked(&mut s, name);
            },
            TypeError::Uninitialized { name, .. } => {
                push_str(&mut s, "Uninitialized value ");
                push_backticked(&mut s, name);
            },
            TypeError::ParameterArityMismatch { id, expected, got, .. } => {
                push_string(&mut s, id);
                push_str(&mut s, " expected ");
                push_nat(&mut s, *expected as u64);
                push_str(&mut s, " parameters, got ");
                push_nat(&mut s, *got as u64);
                push_str(&mut s, " arguments");
            },
        }
        assert(s@ =~= type_error_text(self@));
        s
    }
}

/// Any error as one line of text.
pub open spec fn error_text(e: Error) -> Seq<char> {
    match e {
        Error::Type(t) => type_error_text(t@),
        Error::Vm(v) => vm_error_text(v@),
        Error::Parse(p) => parse_error_text(p.kind),
        Error::CodeGen(c) => code_gen_error_text(c),
    }
}

impl Error {
    /// The error as one line of text.
    pub fn to_string(&self) -> (s: String)
        ensures
            s@ == error_text(*self),
    {
        match self {
            Error::Type(t) => t.to_string(),
            Error::Vm(v) => v.to_string(),
            Error::Parse(p) => p.to_string(),
            Error::CodeGen(c) => c.to_string(),
        }
    }
}

} // verus!
