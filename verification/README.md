# rnr

A small compiler toolchain for the RnR language, a subset of Rust: a lexer and
parser, a type checker, a tree-walking virtual machine, and a code generator for a
stack machine on MIPS registers. Each stage is verified with Verus against a
mathematical model of what it computes.

## Layout

- `src/lexer.rs`, `src/parse.rs`: source text to tokens to the AST (`src/ast.rs`).
- `src/source.rs`: removal of `//` comments and blank lines before parsing.
- `src/display.rs`, `src/view.rs`, `src/dot.rs`: the AST as source text, as a tree of
  nodes, and as a Graphviz graph.
- `src/type_check.rs`, `src/env.rs`: the type checker and the scopes it and the
  virtual machine use.
- `src/vm.rs`, `src/intrinsics.rs`: the evaluator, with a budget of work, and `println!`.
- `src/code_gen.rs`: code generation and the assembly text of the instructions.
- `src/diagnostic.rs`, `src/error.rs`, `src/pipeline.rs`: errors, diagnostics and the
  stages put together.
- `src/laws.rs`: properties that relate several functions, proved.
- `app/main.rs`: the command-line program.
