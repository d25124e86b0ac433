pub mod error;
pub mod ast;
pub mod lexer;
pub mod parse;
pub mod text;
pub mod display;
pub mod env;
pub mod vm;
pub mod type_check;
pub mod pipeline;
pub mod diagnostic;
pub mod view;
pub mod dot;
pub mod laws;
pub mod intrinsics;
pub mod code_gen;
pub mod source;
/// What the operators mean, stated over plain booleans and integers: in the
/// evaluator, in the code generated for the stack machine, in the parser's grouping
/// and in the type checker's treatment of `let mut`.
pub mod operator_laws;
