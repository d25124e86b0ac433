use vstd::prelude::*;
use crate::ast::{BinOp, Literal, SpecLiteral, Type};
use crate::type_check::TypeError;
use crate::vm::{SpecVal, Val};

verus! {

/// A source range: lines count from 1, columns (in characters) from 0.
#[derive(Debug, Clone, Copy, PartialEq, Eq, Structural)]
pub struct ErrRange {
    pub start_line: usize,
    pub start_column: usize,
    pub end_line: usize,
    pub end_column: usize,
}

impl ErrRange {
    /// The range used for nodes that do not come from source text.
    pub fn dummy() -> (r: ErrRange)
        ensures r == ErrRange::spec_dummy(),
    {
        ErrRange { start_line: 0, start_column: 0, end_line: 0, end_column: 0 }
    }

    pub open spec fn spec_dummy() -> ErrRange {
        ErrRange { start_line: 0, start_column: 0, end_line: 0, end_column: 0 }
    }

    pub open spec fn spec_join(self, other: ErrRange) -> ErrRange {
        ErrRange {
            start_line: self.start_line,
            start_column: self.start_column,
            end_line: other.end_line,
            end_column: other.end_column,
        }
    }

    /// The range from the start of `self` to the end of `other`.
    pub fn join(&self, other: &ErrRange) -> (r: ErrRange)
        ensures r == self.spec_join(*other),
    {
        ErrRange {
            start_line: self.start_line,
            start_column: self.start_column,
            end_line: other.end_line,
            end_column: other.end_column,
        }
    }
}

} // verus!

verus! {

/// Something the parser looked for and did not find.
#[derive(Debug, Clone, Copy, PartialEq, Eq, Structural)]
pub enum Expected {
    Semi,
    Comma,
    Colon,
    OpenParen,
    CloseParen,
    OpenBrace,
    CloseBrace,
    Ident,
    Fn,
}

/// Why source text was rejected.
#[derive(Debug, Clone, Copy, PartialEq, Eq, Structural)]
pub enum ParseErrorKind {
    UnexpectedChar(char),
    UnterminatedString,
    InvalidEscape,
    IntTooLarge,
    InvalidLiteral,
    UnexpectedEnd,
    UnexpectedToken,
    Expected(Expected),
    InvalidOperand,
    ExpectedOperator,
    ExpectedUnaryOperator,
    UnsupportedType,
    ExpectedUnit,
    ExpectedLiteral,
}

/// A rejection of source text, with the range it concerns.
#[derive(Debug, Clone, Copy, PartialEq, Eq, Structural)]
pub struct ParseError {
    pub kind: ParseErrorKind,
    pub span: ErrRange,
}

} // verus!

verus! {

/// Why evaluation in the virtual machine stopped.
#[derive(Debug)]
pub enum VmError {
    /// The program declares no `main`.
    NoMainFound,
    /// A name was read that no scope binds.
    NoValFound(String),
    /// A function was called that no scope declares.
    NoFunctionFound(String),
    /// The left-hand side of an assignment is not a name; it carries that side as text.
    IllegalAssignment(String),
    /// A call passed another number of arguments than the function has parameters.
    ParameterArityMismatch { id: String, expected: usize, got: usize },
    /// A value of another kind than the operation needs.
    TypeMismatch { expected: Type, got: Val },
    /// An integer division by zero.
    DivisionByZero,
    /// An integer result outside the range of `i32`.
    Overflow,
    /// The evaluation used up its budget of loop iterations and call depth.
    OutOfFuel,
}

/// The mathematical counterpart of [`VmError`].
pub enum SpecVmError {
    NoMainFound,
    NoValFound(Seq<char>),
    NoFunctionFound(Seq<char>),
    IllegalAssignment(Seq<char>),
    ParameterArityMismatch { id: Seq<char>, expected: usize, got: usize },
    TypeMismatch { expected: Type, got: SpecVal },
    DivisionByZero,
    Overflow,
    OutOfFuel,
}

impl View for VmError {
    type V = SpecVmError;

    open spec fn view(&self) -> SpecVmError {
        match self {
            VmError::NoMainFound => SpecVmError::NoMainFound,
            VmError::NoValFound(s) => SpecVmError::NoValFound(s@),
            VmError::NoFunctionFound(s) => SpecVmError::NoFunctionFound(s@),
            VmError::IllegalAssignment(s) => SpecVmError::IllegalAssignment(s@),
            VmError::ParameterArityMismatch { id, expected, got } => SpecVmError::ParameterArityMismatch {
                id: id@,
                expected: *expected,
                got: *got,
            },
            VmError::TypeMismatch { expected, got } => SpecVmError::TypeMismatch { expected: *expected, got: got@ },
            VmError::DivisionByZero => SpecVmError::DivisionByZero,
            VmError::Overflow => SpecVmError::Overflow,
            VmError::OutOfFuel => SpecVmError::OutOfFuel,
        }
    }
}

/// Why code generation refused a program.
#[derive(Debug)]
pub enum CodeGenError {
    /// A literal the target cannot hold (strings).
    UnsupportedLiteral(Literal),
    /// An operator the target has no instruction for.
    UnsupportedOperator(BinOp),
    /// A call of a function with no label.
    UndefinedFunction(String),
    /// A name with no place on the stack.
    UndefinedValue(String),
    /// The left-hand side of an assignment is not a name; it carries that side as text.
    AssignmentToNonIdent(String),
    /// A stack offset, frame size, argument area or label number outside the range of `i16`.
    Overflow,
}

/// The mathematical counterpart of [`CodeGenError`].
pub enum SpecCodeGenError {
    UnsupportedLiteral(SpecLiteral),
    UnsupportedOperator(BinOp),
    UndefinedFunction(Seq<char>),
    UndefinedValue(Seq<char>),
    AssignmentToNonIdent(Seq<char>),
    Overflow,
}

impl View for CodeGenError {
    type V = SpecCodeGenError;

    open spec fn view(&self) -> SpecCodeGenError {
        match self {
            CodeGenError::UnsupportedLiteral(l) => SpecCodeGenError::UnsupportedLiteral(l@),
            CodeGenError::UnsupportedOperator(op) => SpecCodeGenError::UnsupportedOperator(*op),
            CodeGenError::UndefinedFunction(s) => SpecCodeGenError::UndefinedFunction(s@),
            CodeGenError::UndefinedValue(s) => SpecCodeGenError::UndefinedValue(s@),
            CodeGenError::AssignmentToNonIdent(s) => SpecCodeGenError::AssignmentToNonIdent(s@),
            CodeGenError::Overflow => SpecCodeGenError::Overflow,
        }
    }
}

/// Errors of the environments. No operation of `Env` or `TypeEnv` fails (a lookup that
/// finds nothing answers `None`), so this type has no values: its one field cannot be made.
#[derive(Debug)]
pub struct EnvError(pub std::convert::Infallible);

/// Any error of the toolchain: parsing, type checking, evaluation or code generation.
#[derive(Debug)]
pub enum Error {
    Vm(VmError),
    Type(TypeError),
    Parse(ParseError),
    CodeGen(CodeGenError),
}

} // verus!
