use vstd::prelude::*;
use crate::ast::{
    Arguments, BinOp, Block, Expr, ExprKind, FnDeclaration, Literal, Mutable, Parameter, Parameters, Prog,
    SpecBlock, SpecExpr, SpecExprKind, SpecFnDecl, SpecLiteral, SpecParam, SpecStatement, SpecStmtKind,
    Statement, StatementKind, Type, TypeExpr, UnOp, expr_view, exprs_view, stmt_view, stmts_view,
};
use crate::error::{ErrRange, Expected, ParseError, ParseErrorKind};
use crate::lexer::{tokenize, tokens_view, spec_tokenize, Keyword, Punct, SpecToken, SpecTokenKind, Token, TokenKind};

verus! {

// ---------------------------------------------------------------------------
// Looking at tokens

pub open spec fn is_punct(t: Seq<SpecToken>, p: int, x: Punct) -> bool {
    0 <= p < t.len() && t[p].kind == SpecTokenKind::Punct(x)
}

pub open spec fn is_kw(t: Seq<SpecToken>, p: int, k: Keyword) -> bool {
    0 <= p < t.len() && t[p].kind == SpecTokenKind::Keyword(k)
}

/// The range an error at position `p` is reported at: the token there, or the
/// last token where the input has run out.
pub open spec fn span_at(t: Seq<SpecToken>, p: int) -> ErrRange {
    if 0 <= p < t.len() {
        t[p].span
    } else if t.len() > 0 {
        t.last().span
    } else {
        ErrRange::spec_dummy()
    }
}

pub open spec fn fail<A>(kind: ParseErrorKind, t: Seq<SpecToken>, p: int) -> Result<A, ParseError> {
    Err(ParseError { kind, span: span_at(t, p) })
}

/// The range of the tokens from `a` up to (not including) `b`.
pub open spec fn span_of(t: Seq<SpecToken>, a: int, b: int) -> ErrRange {
    t[a].span.spec_join(t[b - 1].span)
}

/// `p < q` and `q` is within the input: a parse that started at `p` moved forward.
pub open spec fn advanced(t: Seq<SpecToken>, p: int, q: int) -> bool {
    p < q <= t.len()
}

/// The binary operator a punctuation token stands for.
pub open spec fn binop_of(x: Punct) -> Option<BinOp> {
    match x {
        Punct::Plus => Some(BinOp::Add),
        Punct::Minus => Some(BinOp::Sub),
        Punct::Star => Some(BinOp::Mul),
        Punct::Slash => Some(BinOp::Div),
        Punct::AndAnd => Some(BinOp::And),
        Punct::OrOr => Some(BinOp::Or),
        Punct::EqEq => Some(BinOp::Eq),
        Punct::Lt => Some(BinOp::Lt),
        Punct::Gt => Some(BinOp::Gt),
        _ => None,
    }
}

/// The binary operator at position `p`, if there is one.
pub open spec fn peek_binop(t: Seq<SpecToken>, p: int) -> Option<BinOp> {
    if 0 <= p < t.len() {
        match t[p].kind {
            SpecTokenKind::Punct(x) => binop_of(x),
            _ => None,
        }
    } else {
        None
    }
}

pub open spec fn unop_of(x: Punct) -> Option<UnOp> {
    match x {
        Punct::Minus => Some(UnOp::Neg),
        Punct::Bang => Some(UnOp::Bang),
        _ => None,
    }
}

pub open spec fn word_i32() -> Seq<char> {
    seq!['i', '3', '2']
}

pub open spec fn word_bool() -> Seq<char> {
    seq!['b', 'o', 'o', 'l']
}

pub open spec fn word_string() -> Seq<char> {
    seq!['S', 't', 'r', 'i', 'n', 'g']
}

/// The block `{ e }` that an `else if` expression stands for.
pub open spec fn block_of_expr(e: SpecExpr) -> SpecBlock {
    SpecBlock { statements: seq![SpecStatement { node: SpecStmtKind::Expr(e), span: e.span }], semi: false }
}

/// Whether a statement that is followed by `next_is_end` (the closing brace comes
/// next) must be followed by `;`.
pub open spec fn needs_semi(s: SpecStatement, is_last: bool) -> bool {
    match s.node {
        SpecStmtKind::Let(..) => true,
        SpecStmtKind::Assign(..) => !is_last,
        SpecStmtKind::Expr(e) => match e.node {
            SpecExprKind::Block(_) => false,
            _ => !is_last,
        },
        SpecStmtKind::While(..) => false,
        SpecStmtKind::Fn(..) => false,
    }
}

// ---------------------------------------------------------------------------
// Grammar of types, operators, literals and parameters

pub open spec fn spec_type(t: Seq<SpecToken>, p: int) -> Result<(Type, int), ParseError> {
    if 0 <= p < t.len() {
        match t[p].kind {
            SpecTokenKind::Ident(n) => if n == word_i32() {
                Ok((Type::I32, p + 1))
            } else if n == word_bool() {
                Ok((Type::Bool, p + 1))
            } else if n == word_string() {
                Ok((Type::String, p + 1))
            } else {
                fail(ParseErrorKind::UnsupportedType, t, p)
            },
            SpecTokenKind::Punct(Punct::LParen) => if is_punct(t, p + 1, Punct::RParen) {
                Ok((Type::Unit, p + 2))
            } else {
                fail(ParseErrorKind::UnsupportedType, t, p)
            },
            _ => fail(ParseErrorKind::UnsupportedType, t, p),
        }
    } else {
        fail(ParseErrorKind::UnsupportedType, t, p)
    }
}

/// A type with the range of its tokens.
pub open spec fn spec_type_expr(t: Seq<SpecToken>, p: int) -> Result<(TypeExpr, int), ParseError> {
    match spec_type(t, p) {
        Ok((ty, q)) => Ok((TypeExpr { node: ty, span: span_of(t, p, q) }, q)),
        Err(e) => Err(e),
    }
}

pub open spec fn spec_binop(t: Seq<SpecToken>, p: int) -> Result<(BinOp, int), ParseError> {
    match peek_binop(t, p) {
        Some(op) => Ok((op, p + 1)),
        None => fail(ParseErrorKind::ExpectedOperator, t, p),
    }
}

pub open spec fn spec_unop(t: Seq<SpecToken>, p: int) -> Result<(UnOp, int), ParseError> {
    if 0 <= p < t.len() {
        match t[p].kind {
            SpecTokenKind::Punct(x) => match unop_of(x) {
                Some(op) => Ok((op, p + 1)),
                None => fail(ParseErrorKind::ExpectedUnaryOperator, t, p),
            },
            _ => fail(ParseErrorKind::ExpectedUnaryOperator, t, p),
        }
    } else {
        fail(ParseErrorKind::ExpectedUnaryOperator, t, p)
    }
}

pub open spec fn spec_param(t: Seq<SpecToken>, p: int) -> Result<(SpecParam, int), ParseError> {
    let mutable = is_kw(t, p, Keyword::Mut);
    let i = if mutable { p + 1 } else { p };
    if 0 <= i < t.len() {
        match t[i].kind {
            SpecTokenKind::Ident(id) => if is_punct(t, i + 1, Punct::Colon) {
                match spec_type_expr(t, i + 2) {
                    Ok((ty, q)) => Ok((SpecParam { mutable, id, ty, span: span_of(t, p, q) }, q)),
                    Err(e) => Err(e),
                }
            } else {
                fail(ParseErrorKind::Expected(Expected::Colon), t, i + 1)
            },
            _ => fail(ParseErrorKind::Expected(Expected::Ident), t, i),
        }
    } else {
        fail(ParseErrorKind::Expected(Expected::Ident), t, i)
    }
}

/// Parameters after the first, up to and including the closing parenthesis.
pub open spec fn spec_params_rest(t: Seq<SpecToken>, p: int, acc: Seq<SpecParam>) -> Result<(Seq<SpecParam>, int), ParseError>
    decreases t.len() - p,
{
    if is_punct(t, p, Punct::RParen) {
        Ok((acc, p + 1))
    } else if is_punct(t, p, Punct::Comma) {
        if is_punct(t, p + 1, Punct::RParen) {
            Ok((acc, p + 2))
        } else {
            match spec_param(t, p + 1) {
                Ok((x, q)) => if advanced(t, p, q) {
                    spec_params_rest(t, q, acc.push(x))
                } else {
                    fail(ParseErrorKind::UnexpectedEnd, t, p)
                },
                Err(e) => Err(e),
            }
        }
    } else {
        fail(ParseErrorKind::Expected(Expected::Comma), t, p)
    }
}

pub open spec fn spec_parameters(t: Seq<SpecToken>, p: int) -> Result<(Seq<SpecParam>, int), ParseError> {
    if !is_punct(t, p, Punct::LParen) {
        fail(ParseErrorKind::Expected(Expected::OpenParen), t, p)
    } else if is_punct(t, p + 1, Punct::RParen) {
        Ok((seq![], p + 2))
    } else {
        match spec_param(t, p + 1) {
            Ok((x, q)) => spec_params_rest(t, q, seq![x]),
            Err(e) => Err(e),
        }
    }
}

// ---------------------------------------------------------------------------
// Grammar of expressions, statements and blocks

/// `Expr = Operand { BinOp Operand }`, grouped by priority, left to right.
pub open spec fn spec_expr(t: Seq<SpecToken>, p: int) -> Result<(SpecExpr, int), ParseError>
    decreases t.len() - p, 6nat,
{
    if p < 0 || p > t.len() {
        fail(ParseErrorKind::UnexpectedEnd, t, p)
    } else {
        match spec_operand(t, p) {
            Err(e) => Err(e),
            Ok((left, q)) => if advanced(t, p, q) {
                spec_binop_rest(t, q, left, 0)
            } else {
                fail(ParseErrorKind::UnexpectedEnd, t, p)
            },
        }
    }
}

/// Given the expression `left` parsed so far, takes in every following operator
/// whose priority is at least `min`, with the operators that bind tighter on their
/// right.
pub open spec fn spec_binop_rest(t: Seq<SpecToken>, p: int, left: SpecExpr, min: int) -> Result<(SpecExpr, int), ParseError>
    decreases t.len() - p, 1nat,
{
    if p < 0 || p > t.len() {
        fail(ParseErrorKind::UnexpectedEnd, t, p)
    } else {
        match peek_binop(t, p) {
            None => Ok((left, p)),
            Some(op) => if (op.spec_priority() as int) < min {
                Ok((left, p))
            } else {
                match spec_operand(t, p + 1) {
                    Err(e) => Err(e),
                    Ok((right, q)) => if advanced(t, p + 1, q) {
                        match spec_binop_rest(t, q, right, op.spec_priority() + 1) {
                            Err(e) => Err(e),
                            Ok((right, r)) => if q <= r <= t.len() {
                                spec_binop_rest(
                                    t,
                                    r,
                                    SpecExpr {
                                        node: SpecExprKind::BinOp(op, Box::new(left), Box::new(right)),
                                        span: left.span.spec_join(right.span),
                                    },
                                    min,
                                )
                            } else {
                                fail(ParseErrorKind::UnexpectedEnd, t, p)
                            },
                        }
                    } else {
                        fail(ParseErrorKind::UnexpectedEnd, t, p)
                    },
                }
            },
        }
    }
}

/// The first part of a binary expression: a literal, an identifier, a call, a unary
/// operation, a parenthesized expression, a block or an `if` expression.
pub open spec fn spec_operand(t: Seq<SpecToken>, p: int) -> Result<(SpecExpr, int), ParseError>
    decreases t.len() - p, 5nat,
{
    if p < 0 || p >= t.len() {
        fail(ParseErrorKind::InvalidOperand, t, p)
    } else {
        match t[p].kind {
            SpecTokenKind::Punct(Punct::LParen) => if is_punct(t, p + 1, Punct::RParen) {
                Ok((SpecExpr { node: SpecExprKind::Lit(SpecLiteral::Unit), span: span_of(t, p, p + 2) }, p + 2))
            } else {
                match spec_expr(t, p + 1) {
                    Err(e) => Err(e),
                    Ok((e, q)) => if is_punct(t, q, Punct::RParen) {
                        Ok((SpecExpr { node: SpecExprKind::Par(Box::new(e)), span: span_of(t, p, q + 1) }, q + 1))
                    } else {
                        fail(ParseErrorKind::Expected(Expected::CloseParen), t, q)
                    },
                }
            },
            SpecTokenKind::Punct(Punct::Minus) => match spec_operand(t, p + 1) {
                Err(e) => Err(e),
                Ok((e, q)) => Ok((SpecExpr { node: SpecExprKind::UnOp(UnOp::Neg, Box::new(e)), span: span_of(t, p, q) }, q)),
            },
            SpecTokenKind::Punct(Punct::Bang) => match spec_operand(t, p + 1) {
                Err(e) => Err(e),
                Ok((e, q)) => Ok((SpecExpr { node: SpecExprKind::UnOp(UnOp::Bang, Box::new(e)), span: span_of(t, p, q) }, q)),
            },
            SpecTokenKind::Ident(name) => if is_punct(t, p + 1, Punct::Bang) {
                match spec_arguments(t, p + 2) {
                    Err(e) => Err(e),
                    Ok((args, q)) => Ok((SpecExpr { node: SpecExprKind::Call(name.push('!'), args), span: span_of(t, p, q) }, q)),
                }
            } else if is_punct(t, p + 1, Punct::LParen) {
                match spec_arguments(t, p + 1) {
                    Err(e) => Err(e),
                    Ok((args, q)) => Ok((SpecExpr { node: SpecExprKind::Call(name, args), span: span_of(t, p, q) }, q)),
                }
            } else {
                Ok((SpecExpr { node: SpecExprKind::Ident(name), span: span_of(t, p, p + 1) }, p + 1))
            },
            SpecTokenKind::Punct(Punct::LBrace) => match spec_block(t, p) {
                Err(e) => Err(e),
                Ok((b, q)) => if advanced(t, p, q) {
                    Ok((SpecExpr { node: SpecExprKind::Block(b), span: span_of(t, p, q) }, q))
                } else {
                    fail(ParseErrorKind::UnexpectedEnd, t, p)
                },
            },
            SpecTokenKind::Keyword(Keyword::If) => match spec_expr(t, p + 1) {
                Err(e) => Err(e),
                Ok((cond, q)) => if advanced(t, p + 1, q) {
                    match spec_block(t, q) {
                        Err(e) => Err(e),
                        Ok((then_block, r)) => if advanced(t, q, r) {
                            if is_kw(t, r, Keyword::Else) {
                                if is_kw(t, r + 1, Keyword::If) {
                                    match spec_expr(t, r + 1) {
                                        Err(e) => Err(e),
                                        Ok((e, s)) => Ok((
                                            SpecExpr {
                                                node: SpecExprKind::IfThenElse(Box::new(cond), then_block, Some(block_of_expr(e))),
                                                span: span_of(t, p, s),
                                            },
                                            s,
                                        )),
                                    }
                                } else {
                                    match spec_block(t, r + 1) {
                                        Err(e) => Err(e),
                                        Ok((else_block, s)) => Ok((
                                            SpecExpr {
                                                node: SpecExprKind::IfThenElse(Box::new(cond), then_block, Some(else_block)),
                                                span: span_of(t, p, s),
                                            },
                                            s,
                                        )),
                                    }
                                }
                            } else {
                                Ok((
                                    SpecExpr { node: SpecExprKind::IfThenElse(Box::new(cond), then_block, None), span: span_of(t, p, r) },
                                    r,
                                ))
                            }
                        } else {
                            fail(ParseErrorKind::UnexpectedEnd, t, p)
                        },
                    }
                } else {
                    fail(ParseErrorKind::UnexpectedEnd, t, p)
                },
            },
            SpecTokenKind::Keyword(Keyword::True) => Ok((
                SpecExpr { node: SpecExprKind::Lit(SpecLiteral::Bool(true)), span: span_of(t, p, p + 1) },
                p + 1,
            )),
            SpecTokenKind::Keyword(Keyword::False) => Ok((
                SpecExpr { node: SpecExprKind::Lit(SpecLiteral::Bool(false)), span: span_of(t, p, p + 1) },
                p + 1,
            )),
            SpecTokenKind::Int(v) => Ok((
                SpecExpr { node: SpecExprKind::Lit(SpecLiteral::Int(v)), span: span_of(t, p, p + 1) },
                p + 1,
            )),
            SpecTokenKind::Str(s) => Ok((
                SpecExpr { node: SpecExprKind::Lit(SpecLiteral::String(s)), span: span_of(t, p, p + 1) },
                p + 1,
            )),
            _ => fail(ParseErrorKind::InvalidOperand, t, p),
        }
    }
}

/// `( [Expr { , Expr } [,]] )`
pub open spec fn spec_arguments(t: Seq<SpecToken>, p: int) -> Result<(Seq<SpecExpr>, int), ParseError>
    decreases t.len() - p, 11nat,
{
    if !is_punct(t, p, Punct::LParen) {
        fail(ParseErrorKind::Expected(Expected::OpenParen), t, p)
    } else {
        spec_args_rest(t, p + 1, seq![])
    }
}

/// Arguments from position `p` on, with `acc` those read so far, up to and
/// including the closing parenthesis.
pub open spec fn spec_args_rest(t: Seq<SpecToken>, p: int, acc: Seq<SpecExpr>) -> Result<(Seq<SpecExpr>, int), ParseError>
    decreases t.len() - p, 10nat,
{
    if p < 0 || p > t.len() {
        fail(ParseErrorKind::UnexpectedEnd, t, p)
    } else if is_punct(t, p, Punct::RParen) {
        Ok((acc, p + 1))
    } else {
        match spec_expr(t, p) {
            Err(e) => Err(e),
            Ok((e, q)) => if advanced(t, p, q) {
                if is_punct(t, q, Punct::RParen) {
                    Ok((acc.push(e), q + 1))
                } else if is_punct(t, q, Punct::Comma) {
                    spec_args_rest(t, q + 1, acc.push(e))
                } else {
                    fail(ParseErrorKind::Expected(Expected::Comma), t, q)
                }
            } else {
                fail(ParseErrorKind::UnexpectedEnd, t, p)
            },
        }
    }
}

/// `{ [Statement { ; Statement } [;]] }`
pub open spec fn spec_block(t: Seq<SpecToken>, p: int) -> Result<(SpecBlock, int), ParseError>
    decreases t.len() - p, 4nat,
{
    if !is_punct(t, p, Punct::LBrace) {
        fail(ParseErrorKind::Expected(Expected::OpenBrace), t, p)
    } else {
        spec_block_items(t, p + 1, seq![], false)
    }
}

/// The statements of a block from position `p` on, with `stmts` those read so far
/// and `semi` whether the last of them was followed by `;`.
pub open spec fn spec_block_items(t: Seq<SpecToken>, p: int, stmts: Seq<SpecStatement>, semi: bool) -> Result<(SpecBlock, int), ParseError>
    decreases t.len() - p, 9nat,
{
    if p < 0 || p >= t.len() {
        fail(ParseErrorKind::Expected(Expected::CloseBrace), t, p)
    } else if is_punct(t, p, Punct::RBrace) {
        Ok((SpecBlock { statements: stmts, semi }, p + 1))
    } else {
        match spec_statement(t, p) {
            Err(e) => Err(e),
            Ok((s, q)) => if advanced(t, p, q) {
                let is_last = q >= t.len() || is_punct(t, q, Punct::RBrace);
                if is_punct(t, q, Punct::Semi) {
                    spec_block_items(t, q + 1, stmts.push(s), true)
                } else if needs_semi(s, is_last) {
                    fail(ParseErrorKind::Expected(Expected::Semi), t, q)
                } else {
                    spec_block_items(t, q, stmts.push(s), false)
                }
            } else {
                fail(ParseErrorKind::UnexpectedEnd, t, p)
            },
        }
    }
}

/// `let [mut] Ident [: Type] [= Expr]`, `while Expr Block`, a function declaration,
/// `Expr = Expr` or `Expr`.
pub open spec fn spec_statement(t: Seq<SpecToken>, p: int) -> Result<(SpecStatement, int), ParseError>
    decreases t.len() - p, 8nat,
{
    if p < 0 || p >= t.len() {
        fail(ParseErrorKind::InvalidOperand, t, p)
    } else if is_kw(t, p, Keyword::Let) {
        let mutable = is_kw(t, p + 1, Keyword::Mut);
        let i = if mutable { p + 2 } else { p + 1 };
        if 0 <= i < t.len() && t[i].kind is Ident {
            let id = t[i].kind->Ident_0;
            let ty_res: Result<(Option<TypeExpr>, int), ParseError> = if is_punct(t, i + 1, Punct::Colon) {
                match spec_type_expr(t, i + 2) {
                    Ok((ty, j)) => Ok((Some(ty), j)),
                    Err(e) => Err(e),
                }
            } else {
                Ok((None, i + 1))
            };
            match ty_res {
                Err(e) => Err(e),
                Ok((ty, j)) => if is_punct(t, j, Punct::Eq) {
                    match spec_expr(t, j + 1) {
                        Err(e) => Err(e),
                        Ok((e, k)) => Ok((
                            SpecStatement { node: SpecStmtKind::Let(mutable, id, ty, Some(e)), span: span_of(t, p, k) },
                            k,
                        )),
                    }
                } else {
                    Ok((SpecStatement { node: SpecStmtKind::Let(mutable, id, ty, None), span: span_of(t, p, j) }, j))
                },
            }
        } else {
            fail(ParseErrorKind::Expected(Expected::Ident), t, i)
        }
    } else if is_kw(t, p, Keyword::While) {
        match spec_expr(t, p + 1) {
            Err(e) => Err(e),
            Ok((cond, q)) => if advanced(t, p + 1, q) {
                match spec_block(t, q) {
                    Err(e) => Err(e),
                    Ok((body, r)) => Ok((SpecStatement { node: SpecStmtKind::While(cond, body), span: span_of(t, p, r) }, r)),
                }
            } else {
                fail(ParseErrorKind::UnexpectedEnd, t, p)
            },
        }
    } else if is_kw(t, p, Keyword::Fn) {
        match spec_fn_decl(t, p) {
            Err(e) => Err(e),
            Ok((f, q)) => Ok((SpecStatement { node: SpecStmtKind::Fn(f), span: span_of(t, p, q) }, q)),
        }
    } else {
        match spec_expr(t, p) {
            Err(e) => Err(e),
            Ok((lhs, q)) => if advanced(t, p, q) {
                if is_punct(t, q, Punct::Eq) {
                    match spec_expr(t, q + 1) {
                        Err(e) => Err(e),
                        Ok((rhs, r)) => Ok((SpecStatement { node: SpecStmtKind::Assign(lhs, rhs), span: span_of(t, p, r) }, r)),
                    }
                } else {
                    Ok((SpecStatement { node: SpecStmtKind::Expr(lhs), span: span_of(t, p, q) }, q))
                }
            } else {
                fail(ParseErrorKind::UnexpectedEnd, t, p)
            },
        }
    }
}

/// `fn Ident Parameters [-> Type] Block`
pub open spec fn spec_fn_decl(t: Seq<SpecToken>, p: int) -> Result<(SpecFnDecl, int), ParseError>
    decreases t.len() - p, 7nat,
{
    if !is_kw(t, p, Keyword::Fn) {
        fail(ParseErrorKind::Expected(Expected::Fn), t, p)
    } else if !(p + 1 < t.len() && t[p + 1].kind is Ident) {
        fail(ParseErrorKind::Expected(Expected::Ident), t, p + 1)
    } else {
        let id = t[p + 1].kind->Ident_0;
        match spec_parameters(t, p + 2) {
            Err(e) => Err(e),
            Ok((params, q)) => {
                let ty_res: Result<(Option<TypeExpr>, int), ParseError> = if is_punct(t, q, Punct::Arrow) {
                    match spec_type_expr(t, q + 1) {
                        Ok((ty, r)) => Ok((Some(ty), r)),
                        Err(e) => Err(e),
                    }
                } else {
                    Ok((None, q))
                };
                match ty_res {
                    Err(e) => Err(e),
                    Ok((ty, r)) => if advanced(t, p, r) {
                        match spec_block(t, r) {
                            Err(e) => Err(e),
                            Ok((body, s)) => Ok((SpecFnDecl { id, params, ty, body, span: span_of(t, p, s) }, s)),
                        }
                    } else {
                        fail(ParseErrorKind::UnexpectedEnd, t, p)
                    },
                }
            },
        }
    }
}


// ---------------------------------------------------------------------------
// Executable parser

/// `r` is the executable counterpart of the spec result `s`.
pub open spec fn agrees<T: View>(r: Result<(T, usize), ParseError>, s: Result<(T::V, int), ParseError>) -> bool {
    match r {
        Ok((v, q)) => s == Ok::<(T::V, int), ParseError>((v@, q as int)),
        Err(e) => s == Err::<(T::V, int), ParseError>(e),
    }
}

/// On success the parse moved forward and stayed within the input.
pub open spec fn moved<T>(r: Result<(T, usize), ParseError>, p: int, len: int) -> bool {
    r matches Ok((_, q)) ==> p < q <= len
}

fn punct_is(toks: &Vec<Token>, p: usize, x: Punct) -> (b: bool)
    ensures
        b == is_punct(tokens_view(toks@), p as int, x),
        toks@.len() <= usize::MAX,
{
    if p < toks.len() {
        match &toks[p].kind {
            TokenKind::Punct(y) => *y == x,
            _ => false,
        }
    } else {
        false
    }
}

fn kw_is(toks: &Vec<Token>, p: usize, k: Keyword) -> (b: bool)
    ensures
        b == is_kw(tokens_view(toks@), p as int, k),
        toks@.len() <= usize::MAX,
{
    if p < toks.len() {
        match &toks[p].kind {
            TokenKind::Keyword(y) => *y == k,
            _ => false,
        }
    } else {
        false
    }
}

fn fail_at(kind: ParseErrorKind, toks: &Vec<Token>, p: usize) -> (e: ParseError)
    ensures
        e == (ParseError { kind, span: span_at(tokens_view(toks@), p as int) }),
{
    let span = if p < toks.len() {
        toks[p].span
    } else if toks.len() > 0 {
        toks[toks.len() - 1].span
    } else {
        ErrRange::dummy()
    };
    ParseError { kind, span }
}

fn span_between(toks: &Vec<Token>, a: usize, b: usize) -> (r: ErrRange)
    requires
        a < b <= toks@.len(),
    ensures
        r == span_of(tokens_view(toks@), a as int, b as int),
{
    toks[a].span.join(&toks[b - 1].span)
}

fn binop_at(toks: &Vec<Token>, p: usize) -> (r: Option<BinOp>)
    ensures
        r == peek_binop(tokens_view(toks@), p as int),
        toks@.len() <= usize::MAX,
{
    if p < toks.len() {
        match &toks[p].kind {
            TokenKind::Punct(x) => match x {
                Punct::Plus => Some(BinOp::Add),
                Punct::Minus => Some(BinOp::Sub),
                Punct::Star => Some(BinOp::Mul),
                Punct::Slash => Some(BinOp::Div),
                Punct::AndAnd => Some(BinOp::And),
                Punct::OrOr => Some(BinOp::Or),
                Punct::EqEq => Some(BinOp::Eq),
                Punct::Lt => Some(BinOp::Lt),
                Punct::Gt => Some(BinOp::Gt),
                _ => None,
            },
            _ => None,
        }
    } else {
        None
    }
}

fn str_is(s: &String, w: &[char]) -> (b: bool)
    ensures
        b == (s@ == w@),
{
    let n = s.as_str().unicode_len();
    if n != w.len() {
        return false;
    }
    let mut i: usize = 0;
    while i < n
        invariant
            n == s@.len(),
            n == w@.len(),
            i <= n,
            forall|m: int| 0 <= m < i ==> s@[m] == w@[m],
        decreases n - i,
    {
        if s.as_str().get_char(i) != w[i] {
            return false;
        }
        i = i + 1;
    }
    assert(s@ =~= w@);
    true
}

/// A type with the range of its tokens.
pub fn parse_type_expr_at(toks: &Vec<Token>, p: usize) -> (r: Result<(TypeExpr, usize), ParseError>)
    ensures
        agrees(r, spec_type_expr(tokens_view(toks@), p as int)),
        moved(r, p as int, toks@.len() as int),
{
    match parse_type_at(toks, p) {
        Ok((ty, q)) => {
            let span = span_between(toks, p, q);
            Ok((TypeExpr { node: ty, span }, q))
        },
        Err(e) => Err(e),
    }
}

pub fn parse_type_at(toks: &Vec<Token>, p: usize) -> (r: Result<(Type, usize), ParseError>)
    ensures
        agrees(r, spec_type(tokens_view(toks@), p as int)),
        moved(r, p as int, toks@.len() as int),
{
    if p < toks.len() {
        match &toks[p].kind {
            TokenKind::Ident(n) => if str_is(n, &['i', '3', '2']) {
                Ok((Type::I32, p + 1))
            } else if str_is(n, &['b', 'o', 'o', 'l']) {
                Ok((Type::Bool, p + 1))
            } else if str_is(n, &['S', 't', 'r', 'i', 'n', 'g']) {
                Ok((Type::String, p + 1))
            } else {
                Err(fail_at(ParseErrorKind::UnsupportedType, toks, p))
            },
            TokenKind::Punct(Punct::LParen) => if punct_is(toks, p + 1, Punct::RParen) {
                Ok((Type::Unit, p + 2))
            } else {
                Err(fail_at(ParseErrorKind::UnsupportedType, toks, p))
            },
            _ => Err(fail_at(ParseErrorKind::UnsupportedType, toks, p)),
        }
    } else {
        Err(fail_at(ParseErrorKind::UnsupportedType, toks, p))
    }
}

pub fn parse_binop_at(toks: &Vec<Token>, p: usize) -> (r: Result<(BinOp, usize), ParseError>)
    ensures
        agrees(r, spec_binop(tokens_view(toks@), p as int)),
        moved(r, p as int, toks@.len() as int),
{
    match binop_at(toks, p) {
        Some(op) => Ok((op, p + 1)),
        None => Err(fail_at(ParseErrorKind::ExpectedOperator, toks, p)),
    }
}

pub fn parse_unop_at(toks: &Vec<Token>, p: usize) -> (r: Result<(UnOp, usize), ParseError>)
    ensures
        agrees(r, spec_unop(tokens_view(toks@), p as int)),
        moved(r, p as int, toks@.len() as int),
{
    if p < toks.len() {
        match &toks[p].kind {
            TokenKind::Punct(Punct::Minus) => Ok((UnOp::Neg, p + 1)),
            TokenKind::Punct(Punct::Bang) => Ok((UnOp::Bang, p + 1)),
            _ => Err(fail_at(ParseErrorKind::ExpectedUnaryOperator, toks, p)),
        }
    } else {
        Err(fail_at(ParseErrorKind::ExpectedUnaryOperator, toks, p))
    }
}

pub fn parse_param_at(toks: &Vec<Token>, p: usize) -> (r: Result<(Parameter, usize), ParseError>)
    requires
        p <= toks@.len(),
    ensures
        agrees(r, spec_param(tokens_view(toks@), p as int)),
        moved(r, p as int, toks@.len() as int),
{
    let mutable = kw_is(toks, p, Keyword::Mut);
    let i = if mutable { p + 1 } else { p };
    if i < toks.len() {
        match &toks[i].kind {
            TokenKind::Ident(id) => if punct_is(toks, i + 1, Punct::Colon) {
                match parse_type_expr_at(toks, i + 2) {
                    Ok((ty, q)) => {
                        let span = span_between(toks, p, q);
                        Ok((Parameter { mutable: Mutable(mutable), id: id.clone(), ty, span }, q))
                    },
                    Err(e) => Err(e),
                }
            } else {
                Err(fail_at(ParseErrorKind::Expected(Expected::Colon), toks, i + 1))
            },
            _ => Err(fail_at(ParseErrorKind::Expected(Expected::Ident), toks, i)),
        }
    } else {
        Err(fail_at(ParseErrorKind::Expected(Expected::Ident), toks, i))
    }
}

fn parse_params_rest(toks: &Vec<Token>, p: usize, acc: Vec<Parameter>) -> (r: Result<(Parameters, usize), ParseError>)
    requires
        p <= toks@.len(),
    ensures
        agrees(r, spec_params_rest(tokens_view(toks@), p as int, Parameters(acc)@)),
        moved(r, p as int, toks@.len() as int),
    decreases toks@.len() - p,
{
    if punct_is(toks, p, Punct::RParen) {
        Ok((Parameters(acc), p + 1))
    } else if punct_is(toks, p, Punct::Comma) {
        if punct_is(toks, p + 1, Punct::RParen) {
            Ok((Parameters(acc), p + 2))
        } else {
            match parse_param_at(toks, p + 1) {
                Ok((x, q)) => {
                    let ghost old_view = acc@.map_values(|p: Parameter| p@);
                    let ghost xv = x@;
                    let mut acc = acc;
                    acc.push(x);
                    assert(acc@.map_values(|p: Parameter| p@) =~= old_view.push(xv));
                    parse_params_rest(toks, q, acc)
                },
                Err(e) => Err(e),
            }
        }
    } else {
        Err(fail_at(ParseErrorKind::Expected(Expected::Comma), toks, p))
    }
}


pub fn parse_parameters_at(toks: &Vec<Token>, p: usize) -> (r: Result<(Parameters, usize), ParseError>)
    requires
        p <= toks@.len(),
    ensures
        agrees(r, spec_parameters(tokens_view(toks@), p as int)),
        moved(r, p as int, toks@.len() as int),
{
    if !punct_is(toks, p, Punct::LParen) {
        Err(fail_at(ParseErrorKind::Expected(Expected::OpenParen), toks, p))
    } else if punct_is(toks, p + 1, Punct::RParen) {
        let v: Vec<Parameter> = Vec::new();
        assert(Parameters(v)@ =~= seq![]);
        Ok((Parameters(v), p + 2))
    } else {
        match parse_param_at(toks, p + 1) {
            Ok((x, q)) => {
                let ghost xv = x@;
                let mut v: Vec<Parameter> = Vec::new();
                v.push(x);
                assert(v@.map_values(|p: Parameter| p@) =~= seq![xv]);
                parse_params_rest(toks, q, v)
            },
            Err(e) => Err(e),
        }
    }
}

proof fn lemma_exprs_push(v: Seq<Expr>, e: Expr)
    ensures
        exprs_view(v.push(e)) == exprs_view(v).push(expr_view(e)),
{
    assert(exprs_view(v.push(e)) =~= exprs_view(v).push(expr_view(e)));
}

proof fn lemma_stmts_push(v: Seq<Statement>, s: Statement)
    ensures
        stmts_view(v.push(s)) == stmts_view(v).push(stmt_view(s)),
{
    assert(stmts_view(v.push(s)) =~= stmts_view(v).push(stmt_view(s)));
}

pub fn parse_expr_at(toks: &Vec<Token>, p: usize) -> (r: Result<(Expr, usize), ParseError>)
    requires
        p <= toks@.len(),
    ensures
        agrees(r, spec_expr(tokens_view(toks@), p as int)),
        moved(r, p as int, toks@.len() as int),
    decreases toks@.len() - p, 6nat,
{
    match parse_operand_at(toks, p) {
        Err(e) => Err(e),
        Ok((left, q)) => parse_binop_rest(toks, q, left, 0),
    }
}

fn parse_binop_rest(toks: &Vec<Token>, p: usize, left: Expr, min: u8) -> (r: Result<(Expr, usize), ParseError>)
    requires
        p <= toks@.len(),
        min <= 7,
    ensures
        agrees(r, spec_binop_rest(tokens_view(toks@), p as int, left@, min as int)),
        r matches Ok((_, q)) ==> p <= q <= toks@.len(),
    decreases toks@.len() - p, 1nat,
{
    let op = match binop_at(toks, p) {
        None => return Ok((left, p)),
        Some(op) => op,
    };
    if op.priority() < min {
        return Ok((left, p));
    }
    match parse_operand_at(toks, p + 1) {
        Err(e) => Err(e),
        Ok((right, q)) => match parse_binop_rest(toks, q, right, op.priority() + 1) {
            Err(e) => Err(e),
            Ok((right, r)) => {
                let span = left.span.join(&right.span);
                let e = Expr { node: ExprKind::BinOp(op, Box::new(left), Box::new(right)), span };
                parse_binop_rest(toks, r, e, min)
            },
        },
    }
}

pub fn parse_operand_at(toks: &Vec<Token>, p: usize) -> (r: Result<(Expr, usize), ParseError>)
    requires
        p <= toks@.len(),
    ensures
        agrees(r, spec_operand(tokens_view(toks@), p as int)),
        moved(r, p as int, toks@.len() as int),
    decreases toks@.len() - p, 5nat,
{
    if p >= toks.len() {
        return Err(fail_at(ParseErrorKind::InvalidOperand, toks, p));
    }
    match &toks[p].kind {
        TokenKind::Punct(Punct::LParen) => if punct_is(toks, p + 1, Punct::RParen) {
            Ok((Expr { node: ExprKind::Lit(Literal::Unit), span: span_between(toks, p, p + 2) }, p + 2))
        } else {
            match parse_expr_at(toks, p + 1) {
                Err(e) => Err(e),
                Ok((e, q)) => if punct_is(toks, q, Punct::RParen) {
                    let span = span_between(toks, p, q + 1);
                    Ok((Expr { node: ExprKind::Par(Box::new(e)), span }, q + 1))
                } else {
                    Err(fail_at(ParseErrorKind::Expected(Expected::CloseParen), toks, q))
                },
            }
        },
        TokenKind::Punct(Punct::Minus) => match parse_operand_at(toks, p + 1) {
            Err(e) => Err(e),
            Ok((e, q)) => {
                let span = span_between(toks, p, q);
                Ok((Expr { node: ExprKind::UnOp(UnOp::Neg, Box::new(e)), span }, q))
            },
        },
        TokenKind::Punct(Punct::Bang) => match parse_operand_at(toks, p + 1) {
            Err(e) => Err(e),
            Ok((e, q)) => {
                let span = span_between(toks, p, q);
                Ok((Expr { node: ExprKind::UnOp(UnOp::Bang, Box::new(e)), span }, q))
            },
        },
        TokenKind::Ident(name) => if punct_is(toks, p + 1, Punct::Bang) {
            match parse_arguments_at(toks, p + 2) {
                Err(e) => Err(e),
                Ok((args, q)) => {
                    let mut id = name.clone();
                    crate::lexer::push_char(&mut id, '!');
                    let span = span_between(toks, p, q);
                    Ok((Expr { node: ExprKind::Call(id, args), span }, q))
                },
            }
        } else if punct_is(toks, p + 1, Punct::LParen) {
            match parse_arguments_at(toks, p + 1) {
                Err(e) => Err(e),
                Ok((args, q)) => {
                    let span = span_between(toks, p, q);
                    Ok((Expr { node: ExprKind::Call(name.clone(), args), span }, q))
                },
            }
        } else {
            Ok((Expr { node: ExprKind::Ident(name.clone()), span: span_between(toks, p, p + 1) }, p + 1))
        },
        TokenKind::Punct(Punct::LBrace) => match parse_block_at(toks, p) {
            Err(e) => Err(e),
            Ok((b, q)) => {
                let span = span_between(toks, p, q);
                Ok((Expr { node: ExprKind::Block(b), span }, q))
            },
        },
        TokenKind::Keyword(Keyword::If) => match parse_expr_at(toks, p + 1) {
            Err(e) => Err(e),
            Ok((cond, q)) => match parse_block_at(toks, q) {
                Err(e) => Err(e),
                Ok((then_block, r)) => if kw_is(toks, r, Keyword::Else) {
                    if kw_is(toks, r + 1, Keyword::If) {
                        match parse_expr_at(toks, r + 1) {
                            Err(e) => Err(e),
                            Ok((e, s)) => {
                                let span = span_between(toks, p, s);
                                let else_block = block_of(e);
                                Ok((Expr { node: ExprKind::IfThenElse(Box::new(cond), then_block, Some(else_block)), span }, s))
                            },
                        }
                    } else {
                        match parse_block_at(toks, r + 1) {
                            Err(e) => Err(e),
                            Ok((else_block, s)) => {
                                let span = span_between(toks, p, s);
                                Ok((Expr { node: ExprKind::IfThenElse(Box::new(cond), then_block, Some(else_block)), span }, s))
                            },
                        }
                    }
                } else {
                    let span = span_between(toks, p, r);
                    Ok((Expr { node: ExprKind::IfThenElse(Box::new(cond), then_block, None), span }, r))
                },
            },
        },
        TokenKind::Keyword(Keyword::True) => Ok((
            Expr { node: ExprKind::Lit(Literal::Bool(true)), span: span_between(toks, p, p + 1) },
            p + 1,
        )),
        TokenKind::Keyword(Keyword::False) => Ok((
            Expr { node: ExprKind::Lit(Literal::Bool(false)), span: span_between(toks, p, p + 1) },
            p + 1,
        )),
        TokenKind::Int(v) => Ok((Expr { node: ExprKind::Lit(Literal::Int(*v)), span: span_between(toks, p, p + 1) }, p + 1)),
        TokenKind::Str(s) => Ok((
            Expr { node: ExprKind::Lit(Literal::String(s.clone())), span: span_between(toks, p, p + 1) },
            p + 1,
        )),
        _ => Err(fail_at(ParseErrorKind::InvalidOperand, toks, p)),
    }
}

/// The block `{ e }`.
fn block_of(e: Expr) -> (b: Block)
    ensures
        b@ == block_of_expr(e@),
{
    let span = e.span;
    let mut statements: Vec<Statement> = Vec::new();
    let ghost ev = e@;
    statements.push(Statement { node: StatementKind::Expr(e), span });
    let b = Block { statements, semi: false };
    assert(b@.statements =~= block_of_expr(ev).statements);
    b
}

pub fn parse_arguments_at(toks: &Vec<Token>, p: usize) -> (r: Result<(Arguments, usize), ParseError>)
    requires
        p <= toks@.len(),
    ensures
        agrees(r, spec_arguments(tokens_view(toks@), p as int)),
        moved(r, p as int, toks@.len() as int),
    decreases toks@.len() - p, 11nat,
{
    if !punct_is(toks, p, Punct::LParen) {
        Err(fail_at(ParseErrorKind::Expected(Expected::OpenParen), toks, p))
    } else {
        let v: Vec<Expr> = Vec::new();
        assert(exprs_view(v@) =~= seq![]);
        parse_args_rest(toks, p + 1, v)
    }
}

fn parse_args_rest(toks: &Vec<Token>, p: usize, acc: Vec<Expr>) -> (r: Result<(Arguments, usize), ParseError>)
    requires
        p <= toks@.len(),
    ensures
        agrees(r, spec_args_rest(tokens_view(toks@), p as int, exprs_view(acc@))),
        moved(r, p as int, toks@.len() as int),
    decreases toks@.len() - p, 10nat,
{
    if punct_is(toks, p, Punct::RParen) {
        return Ok((Arguments(acc), p + 1));
    }
    match parse_expr_at(toks, p) {
        Err(e) => Err(e),
        Ok((e, q)) => {
            let ghost old_acc = acc@;
            let ghost ev = e;
            let mut acc = acc;
            acc.push(e);
            proof {
                lemma_exprs_push(old_acc, ev);
            }
            if punct_is(toks, q, Punct::RParen) {
                Ok((Arguments(acc), q + 1))
            } else if punct_is(toks, q, Punct::Comma) {
                parse_args_rest(toks, q + 1, acc)
            } else {
                Err(fail_at(ParseErrorKind::Expected(Expected::Comma), toks, q))
            }
        },
    }
}

pub fn parse_block_at(toks: &Vec<Token>, p: usize) -> (r: Result<(Block, usize), ParseError>)
    requires
        p <= toks@.len(),
    ensures
        agrees(r, spec_block(tokens_view(toks@), p as int)),
        moved(r, p as int, toks@.len() as int),
    decreases toks@.len() - p, 4nat,
{
    if !punct_is(toks, p, Punct::LBrace) {
        Err(fail_at(ParseErrorKind::Expected(Expected::OpenBrace), toks, p))
    } else {
        let v: Vec<Statement> = Vec::new();
        assert(stmts_view(v@) =~= seq![]);
        parse_block_items(toks, p + 1, v, false)
    }
}

fn stmt_needs_semi(s: &Statement, is_last: bool) -> (b: bool)
    ensures
        b == needs_semi(s@, is_last),
{
    match &s.node {
        StatementKind::Let(..) => true,
        StatementKind::Assign(..) => !is_last,
        StatementKind::Expr(e) => match &e.node {
            ExprKind::Block(_) => false,
            _ => !is_last,
        },
        StatementKind::While(..) => false,
        StatementKind::Fn(..) => false,
    }
}

fn parse_block_items(toks: &Vec<Token>, p: usize, stmts: Vec<Statement>, semi: bool) -> (r: Result<(Block, usize), ParseError>)
    requires
        p <= toks@.len(),
    ensures
        agrees(r, spec_block_items(tokens_view(toks@), p as int, stmts_view(stmts@), semi)),
        moved(r, p as int, toks@.len() as int),
    decreases toks@.len() - p, 9nat,
{
    if p >= toks.len() {
        return Err(fail_at(ParseErrorKind::Expected(Expected::CloseBrace), toks, p));
    }
    if punct_is(toks, p, Punct::RBrace) {
        return Ok((Block { statements: stmts, semi }, p + 1));
    }
    match parse_statement_at(toks, p) {
        Err(e) => Err(e),
        Ok((s, q)) => {
            let is_last = q >= toks.len() || punct_is(toks, q, Punct::RBrace);
            let needs = stmt_needs_semi(&s, is_last);
            let ghost old_stmts = stmts@;
            let ghost sv = s;
            let mut stmts = stmts;
            stmts.push(s);
            proof {
                lemma_stmts_push(old_stmts, sv);
            }
            if punct_is(toks, q, Punct::Semi) {
                parse_block_items(toks, q + 1, stmts, true)
            } else if needs {
                Err(fail_at(ParseErrorKind::Expected(Expected::Semi), toks, q))
            } else {
                parse_block_items(toks, q, stmts, false)
            }
        },
    }
}

pub fn parse_statement_at(toks: &Vec<Token>, p: usize) -> (r: Result<(Statement, usize), ParseError>)
    requires
        p <= toks@.len(),
    ensures
        agrees(r, spec_statement(tokens_view(toks@), p as int)),
        moved(r, p as int, toks@.len() as int),
    decreases toks@.len() - p, 8nat,
{
    if p >= toks.len() {
        return Err(fail_at(ParseErrorKind::InvalidOperand, toks, p));
    }
    if kw_is(toks, p, Keyword::Let) {
        let mutable = kw_is(toks, p + 1, Keyword::Mut);
        let i = if mutable { p + 2 } else { p + 1 };
        let id = if i < toks.len() {
            match &toks[i].kind {
                TokenKind::Ident(n) => n.clone(),
                _ => {
                    return Err(fail_at(ParseErrorKind::Expected(Expected::Ident), toks, i));
                },
            }
        } else {
            return Err(fail_at(ParseErrorKind::Expected(Expected::Ident), toks, i));
        };
        let (ty, j) = if punct_is(toks, i + 1, Punct::Colon) {
            match parse_type_expr_at(toks, i + 2) {
                Ok((ty, j)) => (Some(ty), j),
                Err(e) => {
                    return Err(e);
                },
            }
        } else {
            (None, i + 1)
        };
        if punct_is(toks, j, Punct::Eq) {
            match parse_expr_at(toks, j + 1) {
                Err(e) => Err(e),
                Ok((e, k)) => {
                    let span = span_between(toks, p, k);
                    Ok((Statement { node: StatementKind::Let(Mutable(mutable), id, ty, Some(e)), span }, k))
                },
            }
        } else {
            let span = span_between(toks, p, j);
            Ok((Statement { node: StatementKind::Let(Mutable(mutable), id, ty, None), span }, j))
        }
    } else if kw_is(toks, p, Keyword::While) {
        match parse_expr_at(toks, p + 1) {
            Err(e) => Err(e),
            Ok((cond, q)) => match parse_block_at(toks, q) {
                Err(e) => Err(e),
                Ok((body, r)) => {
                    let span = span_between(toks, p, r);
                    Ok((Statement { node: StatementKind::While(cond, body), span }, r))
                },
            },
        }
    } else if kw_is(toks, p, Keyword::Fn) {
        match parse_fn_decl_at(toks, p) {
            Err(e) => Err(e),
            Ok((f, q)) => {
                let span = span_between(toks, p, q);
                Ok((Statement { node: StatementKind::Fn(f), span }, q))
            },
        }
    } else {
        match parse_expr_at(toks, p) {
            Err(e) => Err(e),
            Ok((lhs, q)) => if punct_is(toks, q, Punct::Eq) {
                match parse_expr_at(toks, q + 1) {
                    Err(e) => Err(e),
                    Ok((rhs, r)) => {
                        let span = span_between(toks, p, r);
                        Ok((Statement { node: StatementKind::Assign(lhs, rhs), span }, r))
                    },
                }
            } else {
                let span = span_between(toks, p, q);
                Ok((Statement { node: StatementKind::Expr(lhs), span }, q))
            },
        }
    }
}

pub fn parse_fn_decl_at(toks: &Vec<Token>, p: usize) -> (r: Result<(FnDeclaration, usize), ParseError>)
    requires
        p <= toks@.len(),
    ensures
        agrees(r, spec_fn_decl(tokens_view(toks@), p as int)),
        moved(r, p as int, toks@.len() as int),
    decreases toks@.len() - p, 7nat,
{
    if !kw_is(toks, p, Keyword::Fn) {
        return Err(fail_at(ParseErrorKind::Expected(Expected::Fn), toks, p));
    }
    let id = if p + 1 < toks.len() {
        match &toks[p + 1].kind {
            TokenKind::Ident(n) => n.clone(),
            _ => {
                return Err(fail_at(ParseErrorKind::Expected(Expected::Ident), toks, p + 1));
            },
        }
    } else {
        return Err(fail_at(ParseErrorKind::Expected(Expected::Ident), toks, p + 1));
    };
    match parse_parameters_at(toks, p + 2) {
        Err(e) => Err(e),
        Ok((parameters, q)) => {
            let (ty, r) = if punct_is(toks, q, Punct::Arrow) {
                match parse_type_expr_at(toks, q + 1) {
                    Ok((ty, r)) => (Some(ty), r),
                    Err(e) => {
                        return Err(e);
                    },
                }
            } else {
                (None, q)
            };
            match parse_block_at(toks, r) {
                Err(e) => Err(e),
                Ok((body, s)) => {
                    let span = span_between(toks, p, s);
                    Ok((FnDeclaration { id, parameters, ty, body, span }, s))
                },
            }
        },
    }
}

// ---------------------------------------------------------------------------
// Literals and programs

/// `Int | - Int | true | false | Str | ()`
pub open spec fn spec_literal(t: Seq<SpecToken>, p: int) -> Result<(SpecLiteral, int), ParseError> {
    if 0 <= p < t.len() {
        match t[p].kind {
            SpecTokenKind::Int(v) => Ok((SpecLiteral::Int(v), p + 1)),
            SpecTokenKind::Keyword(Keyword::True) => Ok((SpecLiteral::Bool(true), p + 1)),
            SpecTokenKind::Keyword(Keyword::False) => Ok((SpecLiteral::Bool(false), p + 1)),
            SpecTokenKind::Str(s) => Ok((SpecLiteral::String(s), p + 1)),
            SpecTokenKind::Punct(Punct::Minus) => if p + 1 < t.len() && t[p + 1].kind is Int {
                let v = t[p + 1].kind->Int_0;
                if v == i32::MIN {
                    fail(ParseErrorKind::IntTooLarge, t, p + 1)
                } else {
                    Ok((SpecLiteral::Int((-v) as i32), p + 2))
                }
            } else {
                fail(ParseErrorKind::ExpectedLiteral, t, p + 1)
            },
            SpecTokenKind::Punct(Punct::LParen) => if is_punct(t, p + 1, Punct::RParen) {
                Ok((SpecLiteral::Unit, p + 2))
            } else {
                match spec_expr(t, p + 1) {
                    Err(e) => Err(e),
                    Ok(_) => fail(ParseErrorKind::ExpectedUnit, t, p + 1),
                }
            },
            _ => fail(ParseErrorKind::ExpectedLiteral, t, p),
        }
    } else {
        fail(ParseErrorKind::ExpectedLiteral, t, p)
    }
}

/// Function declarations from position `p` to the end of the input, after `acc`.
pub open spec fn spec_fns_rest(t: Seq<SpecToken>, p: int, acc: Seq<SpecFnDecl>) -> Result<(Seq<SpecFnDecl>, int), ParseError>
    decreases t.len() - p,
{
    if p < 0 || p >= t.len() {
        Ok((acc, p))
    } else {
        match spec_fn_decl(t, p) {
            Err(e) => Err(e),
            Ok((f, q)) => if advanced(t, p, q) {
                spec_fns_rest(t, q, acc.push(f))
            } else {
                fail(ParseErrorKind::UnexpectedEnd, t, p)
            },
        }
    }
}

/// `FnDeclaration { FnDeclaration }`
pub open spec fn spec_prog(t: Seq<SpecToken>, p: int) -> Result<(Seq<SpecFnDecl>, int), ParseError> {
    match spec_fn_decl(t, p) {
        Err(e) => Err(e),
        Ok((f, q)) => spec_fns_rest(t, q, seq![f]),
    }
}

pub fn parse_literal_at(toks: &Vec<Token>, p: usize) -> (r: Result<(Literal, usize), ParseError>)
    requires
        p <= toks@.len(),
    ensures
        agrees(r, spec_literal(tokens_view(toks@), p as int)),
        moved(r, p as int, toks@.len() as int),
{
    if p >= toks.len() {
        return Err(fail_at(ParseErrorKind::ExpectedLiteral, toks, p));
    }
    match &toks[p].kind {
        TokenKind::Int(v) => Ok((Literal::Int(*v), p + 1)),
        TokenKind::Keyword(Keyword::True) => Ok((Literal::Bool(true), p + 1)),
        TokenKind::Keyword(Keyword::False) => Ok((Literal::Bool(false), p + 1)),
        TokenKind::Str(s) => Ok((Literal::String(s.clone()), p + 1)),
        TokenKind::Punct(Punct::Minus) => {
            if p + 1 < toks.len() {
                match &toks[p + 1].kind {
                    TokenKind::Int(v) => {
                        if *v == i32::MIN {
                            return Err(fail_at(ParseErrorKind::IntTooLarge, toks, p + 1));
                        }
                        return Ok((Literal::Int(-*v), p + 2));
                    },
                    _ => {},
                }
            }
            Err(fail_at(ParseErrorKind::ExpectedLiteral, toks, p + 1))
        },
        TokenKind::Punct(Punct::LParen) => if punct_is(toks, p + 1, Punct::RParen) {
            Ok((Literal::Unit, p + 2))
        } else {
            match parse_expr_at(toks, p + 1) {
                Err(e) => Err(e),
                Ok(_) => Err(fail_at(ParseErrorKind::ExpectedUnit, toks, p + 1)),
            }
        },
        _ => Err(fail_at(ParseErrorKind::ExpectedLiteral, toks, p)),
    }
}

proof fn lemma_fns_push(v: Seq<FnDeclaration>, f: FnDeclaration)
    ensures
        v.push(f).map_values(|g: FnDeclaration| crate::ast::fn_view(g)) == v.map_values(
            |g: FnDeclaration| crate::ast::fn_view(g),
        ).push(crate::ast::fn_view(f)),
{
    assert(v.push(f).map_values(|g: FnDeclaration| crate::ast::fn_view(g)) =~= v.map_values(
        |g: FnDeclaration| crate::ast::fn_view(g),
    ).push(crate::ast::fn_view(f)));
}

pub fn parse_prog_at(toks: &Vec<Token>, p: usize) -> (r: Result<(Prog, usize), ParseError>)
    requires
        p <= toks@.len(),
    ensures
        agrees(r, spec_prog(tokens_view(toks@), p as int)),
        moved(r, p as int, toks@.len() as int),
{
    let ghost t = tokens_view(toks@);
    let (first, q) = match parse_fn_decl_at(toks, p) {
        Err(e) => return Err(e),
        Ok(x) => x,
    };
    let mut fns: Vec<FnDeclaration> = Vec::new();
    proof {
        lemma_fns_push(fns@, first);
        assert(fns@.map_values(|g: FnDeclaration| crate::ast::fn_view(g)) =~= seq![]);
    }
    fns.push(first);
    let mut q = q;
    while q < toks.len()
        invariant
            t == tokens_view(toks@),
            p < q <= toks@.len(),
            fns@.len() >= 1,
            spec_prog(t, p as int) == spec_fns_rest(t, q as int, fns@.map_values(|g: FnDeclaration| crate::ast::fn_view(g))),
        decreases toks@.len() - q,
    {
        match parse_fn_decl_at(toks, q) {
            Err(e) => return Err(e),
            Ok((f, r)) => {
                proof {
                    lemma_fns_push(fns@, f);
                }
                fns.push(f);
                q = r;
            },
        }
    }
    let prog = Prog(fns);
    assert(prog@ == fns@.map_values(|g: FnDeclaration| crate::ast::fn_view(g)));
    Ok((prog, q))
}

// ---------------------------------------------------------------------------
// Parsing source text

/// A part of the syntax that can be read from tokens.
pub trait Parse: Sized + View {
    /// The grammar of the part, from position `p` of the tokens.
    spec fn spec_parse(t: Seq<SpecToken>, p: int) -> Result<(Self::V, int), ParseError>;

    /// Reads the part from position `p` of the tokens.
    fn parse_at(toks: &Vec<Token>, p: usize) -> (r: Result<(Self, usize), ParseError>)
        requires
            p <= toks@.len(),
        ensures
            agrees(r, Self::spec_parse(tokens_view(toks@), p as int)),
            moved(r, p as int, toks@.len() as int),
    ;
}

impl Parse for Expr {
    open spec fn spec_parse(t: Seq<SpecToken>, p: int) -> Result<(SpecExpr, int), ParseError> {
        spec_expr(t, p)
    }

    fn parse_at(toks: &Vec<Token>, p: usize) -> (r: Result<(Expr, usize), ParseError>) {
        parse_expr_at(toks, p)
    }
}

impl Parse for Block {
    open spec fn spec_parse(t: Seq<SpecToken>, p: int) -> Result<(SpecBlock, int), ParseError> {
        spec_block(t, p)
    }

    fn parse_at(toks: &Vec<Token>, p: usize) -> (r: Result<(Block, usize), ParseError>) {
        parse_block_at(toks, p)
    }
}

impl Parse for Statement {
    open spec fn spec_parse(t: Seq<SpecToken>, p: int) -> Result<(SpecStatement, int), ParseError> {
        spec_statement(t, p)
    }

    fn parse_at(toks: &Vec<Token>, p: usize) -> (r: Result<(Statement, usize), ParseError>) {
        parse_statement_at(toks, p)
    }
}

impl Parse for Literal {
    open spec fn spec_parse(t: Seq<SpecToken>, p: int) -> Result<(SpecLiteral, int), ParseError> {
        spec_literal(t, p)
    }

    fn parse_at(toks: &Vec<Token>, p: usize) -> (r: Result<(Literal, usize), ParseError>) {
        parse_literal_at(toks, p)
    }
}

impl Parse for BinOp {
    open spec fn spec_parse(t: Seq<SpecToken>, p: int) -> Result<(BinOp, int), ParseError> {
        spec_binop(t, p)
    }

    fn parse_at(toks: &Vec<Token>, p: usize) -> (r: Result<(BinOp, usize), ParseError>) {
        parse_binop_at(toks, p)
    }
}

impl Parse for UnOp {
    open spec fn spec_parse(t: Seq<SpecToken>, p: int) -> Result<(UnOp, int), ParseError> {
        spec_unop(t, p)
    }

    fn parse_at(toks: &Vec<Token>, p: usize) -> (r: Result<(UnOp, usize), ParseError>) {
        parse_unop_at(toks, p)
    }
}

impl Parse for Type {
    open spec fn spec_parse(t: Seq<SpecToken>, p: int) -> Result<(Type, int), ParseError> {
        spec_type(t, p)
    }

    fn parse_at(toks: &Vec<Token>, p: usize) -> (r: Result<(Type, usize), ParseError>) {
        parse_type_at(toks, p)
    }
}

impl Parse for Arguments {
    open spec fn spec_parse(t: Seq<SpecToken>, p: int) -> Result<(Seq<SpecExpr>, int), ParseError> {
        spec_arguments(t, p)
    }

    fn parse_at(toks: &Vec<Token>, p: usize) -> (r: Result<(Arguments, usize), ParseError>) {
        parse_arguments_at(toks, p)
    }
}

impl Parse for Parameter {
    open spec fn spec_parse(t: Seq<SpecToken>, p: int) -> Result<(SpecParam, int), ParseError> {
        spec_param(t, p)
    }

    fn parse_at(toks: &Vec<Token>, p: usize) -> (r: Result<(Parameter, usize), ParseError>) {
        parse_param_at(toks, p)
    }
}

impl Parse for Parameters {
    open spec fn spec_parse(t: Seq<SpecToken>, p: int) -> Result<(Seq<SpecParam>, int), ParseError> {
        spec_parameters(t, p)
    }

    fn parse_at(toks: &Vec<Token>, p: usize) -> (r: Result<(Parameters, usize), ParseError>) {
        parse_parameters_at(toks, p)
    }
}

impl Parse for FnDeclaration {
    open spec fn spec_parse(t: Seq<SpecToken>, p: int) -> Result<(SpecFnDecl, int), ParseError> {
        spec_fn_decl(t, p)
    }

    fn parse_at(toks: &Vec<Token>, p: usize) -> (r: Result<(FnDeclaration, usize), ParseError>) {
        parse_fn_decl_at(toks, p)
    }
}

impl Parse for Prog {
    open spec fn spec_parse(t: Seq<SpecToken>, p: int) -> Result<(Seq<SpecFnDecl>, int), ParseError> {
        spec_prog(t, p)
    }

    fn parse_at(toks: &Vec<Token>, p: usize) -> (r: Result<(Prog, usize), ParseError>) {
        parse_prog_at(toks, p)
    }
}

/// What reading the whole of `src` as a `T` gives: the source is split into tokens,
/// the part is read from the first, and no token may be left over.
pub open spec fn parse_source<T: Parse>(src: Seq<char>) -> Result<T::V, ParseError> {
    match spec_tokenize(src) {
        Err(e) => Err(e),
        Ok(t) => match T::spec_parse(t, 0) {
            Err(e) => Err(e),
            Ok((v, q)) => if q == t.len() {
                Ok(v)
            } else {
                fail(ParseErrorKind::UnexpectedToken, t, q)
            },
        },
    }
}

/// Reads the whole of `src` as a `T`.
pub fn try_parse<T: Parse>(src: &str) -> (r: Result<T, ParseError>)
    ensures
        match r {
            Ok(v) => parse_source::<T>(src@) == Ok::<T::V, ParseError>(v@),
            Err(e) => parse_source::<T>(src@) == Err::<T::V, ParseError>(e),
        },
{
    let toks = match tokenize(src) {
        Ok(t) => t,
        Err(e) => return Err(e),
    };
    match T::parse_at(&toks, 0) {
        Err(e) => Err(e),
        Ok((v, q)) => if q == toks.len() {
            Ok(v)
        } else {
            Err(fail_at(ParseErrorKind::UnexpectedToken, &toks, q))
        },
    }
}

} // verus!
