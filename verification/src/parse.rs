//! The recursive-descent parser: tokens to the template tree.
//!
//! Each executable parse function mirrors a specification twin (`sp_*`)
//! exactly: it returns the same tree and the same next position, or fails at
//! the same token index. Precedence runs comparison, then additive, then
//! multiplicative, then unary minus, then the `.enumerate()` postfix, then
//! atoms.

use crate::ast::BinOp;
use crate::ast::Expr;
use crate::ast::Lst;
use crate::ast::Pat;
use crate::ast::Span;
use crate::ast::span_text;
use crate::eval::span_to_string;
use crate::lexer::ParseError;
use crate::lexer::Tok;
use vstd::prelude::*;

verus! {

/// Comparison expression: an additive expression, optionally compared once.
pub open spec fn sp_expr(src: Seq<char>, toks: Seq<Tok>, i: int) -> Result<(Expr, int), int>
    decreases toks.len() - i, 16int,
{
    match sp_addsub(src, toks, i) {
        Ok((a, j)) => if j < i || j > toks.len() {
            Err(j)
        } else if j < toks.len() && (toks[j] == Tok::EqEq || toks[j] == Tok::NotEq || toks[j]
            == Tok::Lt || toks[j] == Tok::Gt) {
            let op = if toks[j] == Tok::EqEq {
                BinOp::CmpEq
            } else if toks[j] == Tok::NotEq {
                BinOp::CmpNe
            } else if toks[j] == Tok::Lt {
                BinOp::CmpLt
            } else {
                BinOp::CmpGt
            };
            match sp_addsub(src, toks, j + 1) {
                Ok((b, k)) => Ok((Expr::Bin(op, Box::new(a), Box::new(b)), k)),
                Err(e) => Err(e),
            }
        } else {
            Ok((a, j))
        },
        Err(e) => Err(e),
    }
}

/// Additive expression.
pub open spec fn sp_addsub(src: Seq<char>, toks: Seq<Tok>, i: int) -> Result<(Expr, int), int>
    decreases toks.len() - i, 15int,
{
    match sp_mul(src, toks, i) {
        Ok((a, j)) => if j < i || j > toks.len() {
            Err(j)
        } else {
            sp_addsub_more(src, toks, a, j)
        },
        Err(e) => Err(e),
    }
}

/// Remaining `+`/`-` operations, left associative.
pub open spec fn sp_addsub_more(src: Seq<char>, toks: Seq<Tok>, acc: Expr, i: int) -> Result<
    (Expr, int),
    int,
>
    decreases toks.len() - i, 14int,
{
    if i < toks.len() && (toks[i] == Tok::Plus || toks[i] == Tok::Minus) {
        let op = if toks[i] == Tok::Plus {
            BinOp::Add
        } else {
            BinOp::Sub
        };
        match sp_mul(src, toks, i + 1) {
            Ok((b, j)) => if j <= i || j > toks.len() {
                Err(j)
            } else {
                sp_addsub_more(src, toks, Expr::Bin(op, Box::new(acc), Box::new(b)), j)
            },
            Err(e) => Err(e),
        }
    } else {
        Ok((acc, i))
    }
}

/// Multiplicative expression.
pub open spec fn sp_mul(src: Seq<char>, toks: Seq<Tok>, i: int) -> Result<(Expr, int), int>
    decreases toks.len() - i, 13int,
{
    match sp_unary(src, toks, i) {
        Ok((a, j)) => if j < i || j > toks.len() {
            Err(j)
        } else {
            sp_mul_more(src, toks, a, j)
        },
        Err(e) => Err(e),
    }
}

/// Remaining `*` operations, left associative.
pub open spec fn sp_mul_more(src: Seq<char>, toks: Seq<Tok>, acc: Expr, i: int) -> Result<
    (Expr, int),
    int,
>
    decreases toks.len() - i, 12int,
{
    if i < toks.len() && toks[i] == Tok::Star {
        match sp_unary(src, toks, i + 1) {
            Ok((b, j)) => if j <= i || j > toks.len() {
                Err(j)
            } else {
                sp_mul_more(src, toks, Expr::Bin(BinOp::Mul, Box::new(acc), Box::new(b)), j)
            },
            Err(e) => Err(e),
        }
    } else {
        Ok((acc, i))
    }
}

/// Unary minus.
pub open spec fn sp_unary(src: Seq<char>, toks: Seq<Tok>, i: int) -> Result<(Expr, int), int>
    decreases toks.len() - i, 11int,
{
    if i < toks.len() && toks[i] == Tok::Minus {
        match sp_unary(src, toks, i + 1) {
            Ok((a, j)) => Ok((Expr::Neg(Box::new(a)), j)),
            Err(e) => Err(e),
        }
    } else {
        sp_postfix(src, toks, i)
    }
}

/// An atom with its `.enumerate()` postfix chain.
pub open spec fn sp_postfix(src: Seq<char>, toks: Seq<Tok>, i: int) -> Result<(Expr, int), int>
    decreases toks.len() - i, 10int,
{
    match sp_atom(src, toks, i) {
        Ok((a, j)) => if j < i || j > toks.len() {
            Err(j)
        } else {
            sp_postfix_more(src, toks, a, j)
        },
        Err(e) => Err(e),
    }
}

/// Remaining postfix method calls; only `enumerate` exists.
pub open spec fn sp_postfix_more(src: Seq<char>, toks: Seq<Tok>, acc: Expr, i: int) -> Result<
    (Expr, int),
    int,
>
    decreases toks.len() - i, 9int,
{
    if i < toks.len() && toks[i] == Tok::Dot {
        if i + 3 < toks.len() && (toks[i + 1] matches Tok::Ident(sp) && span_text(src, sp)
            == "enumerate"@) && toks[i + 2] == Tok::LParen && toks[i + 3] == Tok::RParen {
            sp_postfix_more(src, toks, Expr::Enumerate(Box::new(acc)), i + 4)
        } else {
            Err(i + 1)
        }
    } else {
        Ok((acc, i))
    }
}

/// An atomic expression: a literal, a variable, a list, or a
/// parenthesized expression or pair.
pub open spec fn sp_atom(src: Seq<char>, toks: Seq<Tok>, i: int) -> Result<(Expr, int), int>
    decreases toks.len() - i, 8int,
{
    if i >= toks.len() {
        Err(i)
    } else {
        match toks[i] {
            Tok::Int(v) => if v <= i64::MAX {
                Ok((Expr::IntLit(v as i64), i + 1))
            } else {
                Err(i)
            },
            Tok::Str(sp) => Ok((Expr::StrLit(sp), i + 1)),
            Tok::KwTrue => Ok((Expr::BoolLit(true), i + 1)),
            Tok::KwFalse => Ok((Expr::BoolLit(false), i + 1)),
            Tok::Ident(sp) => Ok((Expr::Var(sp), i + 1)),
            Tok::LBrack => if i + 1 < toks.len() && toks[i + 1] == Tok::RBrack {
                Ok((Expr::ListLit(Lst::Nil), i + 2))
            } else {
                match sp_exprlist(src, toks, i + 1) {
                    Ok((es, j)) => Ok((Expr::ListLit(es), j)),
                    Err(e) => Err(e),
                }
            },
            Tok::LParen => match sp_expr(src, toks, i + 1) {
                Ok((a, j)) => if j < i + 1 || j > toks.len() {
                    Err(j)
                } else if j < toks.len() && toks[j] == Tok::RParen {
                    Ok((a, j + 1))
                } else if j < toks.len() && toks[j] == Tok::Comma {
                    match sp_expr(src, toks, j + 1) {
                        Ok((b, k)) => if k < toks.len() && toks[k] == Tok::RParen {
                            Ok((Expr::PairLit(Box::new(a), Box::new(b)), k + 1))
                        } else {
                            Err(k)
                        },
                        Err(e) => Err(e),
                    }
                } else {
                    Err(j)
                },
                Err(e) => Err(e),
            },
            _ => Err(i),
        }
    }
}

/// Comma-separated expressions, ended by `]` (a trailing comma is allowed).
pub open spec fn sp_exprlist(src: Seq<char>, toks: Seq<Tok>, i: int) -> Result<
    (Lst<Expr>, int),
    int,
>
    decreases toks.len() - i, 17int,
{
    match sp_expr(src, toks, i) {
        Ok((e, j)) => if j < toks.len() && toks[j] == Tok::RBrack {
            Ok((Lst::Cons(Box::new(e), Box::new(Lst::Nil)), j + 1))
        } else if j < toks.len() && toks[j] == Tok::Comma {
            if j + 1 < toks.len() && toks[j + 1] == Tok::RBrack {
                Ok((Lst::Cons(Box::new(e), Box::new(Lst::Nil)), j + 2))
            } else if j + 1 <= i {
                Err(j)
            } else {
                match sp_exprlist(src, toks, j + 1) {
                    Ok((es, k)) => Ok((Lst::Cons(Box::new(e), Box::new(es)), k)),
                    Err(er) => Err(er),
                }
            }
        } else {
            Err(j)
        },
        Err(e) => Err(e),
    }
}

/// A pattern.
pub open spec fn sp_pat(src: Seq<char>, toks: Seq<Tok>, i: int) -> Result<(Pat, int), int>
    decreases toks.len() - i, 6int,
{
    if i >= toks.len() {
        Err(i)
    } else {
        match toks[i] {
            Tok::Under => Ok((Pat::Wild, i + 1)),
            Tok::Ident(sp) => Ok((Pat::VarP(sp), i + 1)),
            Tok::KwTrue => Ok((Pat::BoolP(true), i + 1)),
            Tok::KwFalse => Ok((Pat::BoolP(false), i + 1)),
            Tok::Str(sp) => Ok((Pat::StrP(sp), i + 1)),
            Tok::Int(v) => if v <= i64::MAX {
                Ok((Pat::IntP(v as i64), i + 1))
            } else {
                Err(i)
            },
            Tok::Minus => if i + 1 < toks.len() && (toks[i + 1] matches Tok::Int(v)) {
                let v = toks[i + 1]->Int_0;
                if v <= i64::MAX {
                    Ok((Pat::IntP((-(v as int)) as i64), i + 2))
                } else if v == 9223372036854775808u64 {
                    Ok((Pat::IntP(i64::MIN), i + 2))
                } else {
                    Err(i + 1)
                }
            } else {
                Err(i + 1)
            },
            Tok::LParen => match sp_pat(src, toks, i + 1) {
                Ok((p1, j)) => if j < toks.len() && toks[j] == Tok::Comma {
                    if j + 1 <= i {
                        Err(j)
                    } else {
                        match sp_pat(src, toks, j + 1) {
                            Ok((p2, k)) => if k < toks.len() && toks[k] == Tok::RParen {
                                Ok((Pat::PairP(Box::new(p1), Box::new(p2)), k + 1))
                            } else {
                                Err(k)
                            },
                            Err(e) => Err(e),
                        }
                    }
                } else {
                    Err(j)
                },
                Err(e) => Err(e),
            },
            _ => Err(i),
        }
    }
}

/// Executable comparison expression.
pub(crate) fn parse_expr(src: &Vec<char>, toks: &Vec<Tok>, i: usize) -> (r: Result<
    (Expr, usize),
    ParseError,
>)
    requires
        i <= toks.len(),
    ensures
        match r {
            Ok((x, j)) => sp_expr(src@, toks@, i as int) == Ok::<(Expr, int), int>((x, j as int))
                && i <= j <= toks.len(),
            Err(e) => sp_expr(src@, toks@, i as int) == Err::<(Expr, int), int>(e.at as int),
        },
    decreases toks.len() - i, 16int,
{
    let (a, j) = parse_addsub(src, toks, i)?;
    if j < toks.len() && (matches!(toks[j], Tok::EqEq) || matches!(toks[j], Tok::NotEq) || matches!(
        toks[j],
        Tok::Lt,
    ) || matches!(toks[j], Tok::Gt)) {
        let op = if matches!(toks[j], Tok::EqEq) {
            BinOp::CmpEq
        } else if matches!(toks[j], Tok::NotEq) {
            BinOp::CmpNe
        } else if matches!(toks[j], Tok::Lt) {
            BinOp::CmpLt
        } else {
            BinOp::CmpGt
        };
        let (b, k) = parse_addsub(src, toks, j + 1)?;
        Ok((Expr::Bin(op, Box::new(a), Box::new(b)), k))
    } else {
        Ok((a, j))
    }
}

/// Executable additive expression.
fn parse_addsub(src: &Vec<char>, toks: &Vec<Tok>, i: usize) -> (r: Result<
    (Expr, usize),
    ParseError,
>)
    requires
        i <= toks.len(),
    ensures
        match r {
            Ok((x, j)) => sp_addsub(src@, toks@, i as int) == Ok::<(Expr, int), int>((x, j as int))
                && i <= j <= toks.len(),
            Err(e) => sp_addsub(src@, toks@, i as int) == Err::<(Expr, int), int>(e.at as int),
        },
    decreases toks.len() - i, 15int,
{
    let (a, j) = parse_mul(src, toks, i)?;
    parse_addsub_more(src, toks, a, j)
}

/// Executable `+`/`-` chain.
fn parse_addsub_more(src: &Vec<char>, toks: &Vec<Tok>, acc: Expr, i: usize) -> (r: Result<
    (Expr, usize),
    ParseError,
>)
    requires
        i <= toks.len(),
    ensures
        match r {
            Ok((x, j)) => sp_addsub_more(src@, toks@, acc, i as int) == Ok::<(Expr, int), int>(
                (x, j as int),
            ) && i <= j <= toks.len(),
            Err(e) => sp_addsub_more(src@, toks@, acc, i as int) == Err::<(Expr, int), int>(
                e.at as int,
            ),
        },
    decreases toks.len() - i, 14int,
{
    if i < toks.len() && (matches!(toks[i], Tok::Plus) || matches!(toks[i], Tok::Minus)) {
        let op = if matches!(toks[i], Tok::Plus) {
            BinOp::Add
        } else {
            BinOp::Sub
        };
        let (b, j) = parse_mul(src, toks, i + 1)?;
        if j <= i {
            Err(ParseError { at: j })
        } else {
            parse_addsub_more(src, toks, Expr::Bin(op, Box::new(acc), Box::new(b)), j)
        }
    } else {
        Ok((acc, i))
    }
}

/// Executable multiplicative expression.
fn parse_mul(src: &Vec<char>, toks: &Vec<Tok>, i: usize) -> (r: Result<(Expr, usize), ParseError>)
    requires
        i <= toks.len(),
    ensures
        match r {
            Ok((x, j)) => sp_mul(src@, toks@, i as int) == Ok::<(Expr, int), int>((x, j as int))
                && i <= j <= toks.len(),
            Err(e) => sp_mul(src@, toks@, i as int) == Err::<(Expr, int), int>(e.at as int),
        },
    decreases toks.len() - i, 13int,
{
    let (a, j) = parse_unary(src, toks, i)?;
    parse_mul_more(src, toks, a, j)
}

/// Executable `*` chain.
fn parse_mul_more(src: &Vec<char>, toks: &Vec<Tok>, acc: Expr, i: usize) -> (r: Result<
    (Expr, usize),
    ParseError,
>)
    requires
        i <= toks.len(),
    ensures
        match r {
            Ok((x, j)) => sp_mul_more(src@, toks@, acc, i as int) == Ok::<(Expr, int), int>(
                (x, j as int),
            ) && i <= j <= toks.len(),
            Err(e) => sp_mul_more(src@, toks@, acc, i as int) == Err::<(Expr, int), int>(
                e.at as int,
            ),
        },
    decreases toks.len() - i, 12int,
{
    if i < toks.len() && matches!(toks[i], Tok::Star) {
        let (b, j) = parse_unary(src, toks, i + 1)?;
        if j <= i {
            Err(ParseError { at: j })
        } else {
            parse_mul_more(src, toks, Expr::Bin(BinOp::Mul, Box::new(acc), Box::new(b)), j)
        }
    } else {
        Ok((acc, i))
    }
}

/// Executable unary minus.
fn parse_unary(src: &Vec<char>, toks: &Vec<Tok>, i: usize) -> (r: Result<(Expr, usize), ParseError>)
    requires
        i <= toks.len(),
    ensures
        match r {
            Ok((x, j)) => sp_unary(src@, toks@, i as int) == Ok::<(Expr, int), int>((x, j as int))
                && i <= j <= toks.len(),
            Err(e) => sp_unary(src@, toks@, i as int) == Err::<(Expr, int), int>(e.at as int),
        },
    decreases toks.len() - i, 11int,
{
    if i < toks.len() && matches!(toks[i], Tok::Minus) {
        let (a, j) = parse_unary(src, toks, i + 1)?;
        Ok((Expr::Neg(Box::new(a)), j))
    } else {
        parse_postfix(src, toks, i)
    }
}

/// Executable postfix expression.
fn parse_postfix(src: &Vec<char>, toks: &Vec<Tok>, i: usize) -> (r: Result<
    (Expr, usize),
    ParseError,
>)
    requires
        i <= toks.len(),
    ensures
        match r {
            Ok((x, j)) => sp_postfix(src@, toks@, i as int) == Ok::<(Expr, int), int>((x, j as int))
                && i <= j <= toks.len(),
            Err(e) => sp_postfix(src@, toks@, i as int) == Err::<(Expr, int), int>(e.at as int),
        },
    decreases toks.len() - i, 10int,
{
    let (a, j) = parse_atom(src, toks, i)?;
    parse_postfix_more(src, toks, a, j)
}

/// Executable postfix chain.
fn parse_postfix_more(src: &Vec<char>, toks: &Vec<Tok>, acc: Expr, i: usize) -> (r: Result<
    (Expr, usize),
    ParseError,
>)
    requires
        i <= toks.len(),
    ensures
        match r {
            Ok((x, j)) => sp_postfix_more(src@, toks@, acc, i as int) == Ok::<(Expr, int), int>(
                (x, j as int),
            ) && i <= j <= toks.len(),
            Err(e) => sp_postfix_more(src@, toks@, acc, i as int) == Err::<(Expr, int), int>(
                e.at as int,
            ),
        },
    decreases toks.len() - i, 9int,
{
    if i < toks.len() && matches!(toks[i], Tok::Dot) {
        let good = if toks.len() - i > 3 {
            match toks[i + 1] {
                Tok::Ident(sp) => {
                    let name = span_to_string(src, sp);
                    name == String::from_str("enumerate") && matches!(toks[i + 2], Tok::LParen)
                        && matches!(toks[i + 3], Tok::RParen)
                },
                _ => false,
            }
        } else {
            false
        };
        if good {
            parse_postfix_more(src, toks, Expr::Enumerate(Box::new(acc)), i + 4)
        } else {
            Err(ParseError { at: i + 1 })
        }
    } else {
        Ok((acc, i))
    }
}

/// Executable atom.
fn parse_atom(src: &Vec<char>, toks: &Vec<Tok>, i: usize) -> (r: Result<(Expr, usize), ParseError>)
    requires
        i <= toks.len(),
    ensures
        match r {
            Ok((x, j)) => sp_atom(src@, toks@, i as int) == Ok::<(Expr, int), int>((x, j as int))
                && i <= j <= toks.len(),
            Err(e) => sp_atom(src@, toks@, i as int) == Err::<(Expr, int), int>(e.at as int),
        },
    decreases toks.len() - i, 8int,
{
    if i >= toks.len() {
        return Err(ParseError { at: i });
    }
    match toks[i] {
        Tok::Int(v) => if v <= i64::MAX as u64 {
            Ok((Expr::IntLit(v as i64), i + 1))
        } else {
            Err(ParseError { at: i })
        },
        Tok::Str(sp) => Ok((Expr::StrLit(sp), i + 1)),
        Tok::KwTrue => Ok((Expr::BoolLit(true), i + 1)),
        Tok::KwFalse => Ok((Expr::BoolLit(false), i + 1)),
        Tok::Ident(sp) => Ok((Expr::Var(sp), i + 1)),
        Tok::LBrack => {
            if i + 1 < toks.len() && matches!(toks[i + 1], Tok::RBrack) {
                Ok((Expr::ListLit(Lst::Nil), i + 2))
            } else {
                let (es, j) = parse_exprlist(src, toks, i + 1)?;
                Ok((Expr::ListLit(es), j))
            }
        },
        Tok::LParen => {
            let (a, j) = parse_expr(src, toks, i + 1)?;
            if j < toks.len() && matches!(toks[j], Tok::RParen) {
                Ok((a, j + 1))
            } else if j < toks.len() && matches!(toks[j], Tok::Comma) {
                let (b, k) = parse_expr(src, toks, j + 1)?;
                if k < toks.len() && matches!(toks[k], Tok::RParen) {
                    Ok((Expr::PairLit(Box::new(a), Box::new(b)), k + 1))
                } else {
                    Err(ParseError { at: k })
                }
            } else {
                Err(ParseError { at: j })
            }
        },
        _ => Err(ParseError { at: i }),
    }
}

/// Executable expression list.
fn parse_exprlist(src: &Vec<char>, toks: &Vec<Tok>, i: usize) -> (r: Result<
    (Lst<Expr>, usize),
    ParseError,
>)
    requires
        i <= toks.len(),
    ensures
        match r {
            Ok((x, j)) => sp_exprlist(src@, toks@, i as int) == Ok::<(Lst<Expr>, int), int>(
                (x, j as int),
            ) && i <= j <= toks.len(),
            Err(e) => sp_exprlist(src@, toks@, i as int) == Err::<(Lst<Expr>, int), int>(
                e.at as int,
            ),
        },
    decreases toks.len() - i, 17int,
{
    let (e, j) = parse_expr(src, toks, i)?;
    if j < toks.len() && matches!(toks[j], Tok::RBrack) {
        Ok((Lst::Cons(Box::new(e), Box::new(Lst::Nil)), j + 1))
    } else if j < toks.len() && matches!(toks[j], Tok::Comma) {
        if j + 1 < toks.len() && matches!(toks[j + 1], Tok::RBrack) {
            Ok((Lst::Cons(Box::new(e), Box::new(Lst::Nil)), j + 2))
        } else if j + 1 <= i {
            Err(ParseError { at: j })
        } else {
            let (es, k) = parse_exprlist(src, toks, j + 1)?;
            Ok((Lst::Cons(Box::new(e), Box::new(es)), k))
        }
    } else {
        Err(ParseError { at: j })
    }
}

/// Executable pattern.
pub(crate) fn parse_pat(src: &Vec<char>, toks: &Vec<Tok>, i: usize) -> (r: Result<
    (Pat, usize),
    ParseError,
>)
    requires
        i <= toks.len(),
    ensures
        match r {
            Ok((x, j)) => sp_pat(src@, toks@, i as int) == Ok::<(Pat, int), int>((x, j as int)) && i
                <= j <= toks.len(),
            Err(e) => sp_pat(src@, toks@, i as int) == Err::<(Pat, int), int>(e.at as int),
        },
    decreases toks.len() - i, 6int,
{
    if i >= toks.len() {
        return Err(ParseError { at: i });
    }
    match toks[i] {
        Tok::Under => Ok((Pat::Wild, i + 1)),
        Tok::Ident(sp) => Ok((Pat::VarP(sp), i + 1)),
        Tok::KwTrue => Ok((Pat::BoolP(true), i + 1)),
        Tok::KwFalse => Ok((Pat::BoolP(false), i + 1)),
        Tok::Str(sp) => Ok((Pat::StrP(sp), i + 1)),
        Tok::Int(v) => if v <= i64::MAX as u64 {
            Ok((Pat::IntP(v as i64), i + 1))
        } else {
            Err(ParseError { at: i })
        },
        Tok::Minus => {
            if i + 1 < toks.len() {
                match toks[i + 1] {
                    Tok::Int(v) => if v <= i64::MAX as u64 {
                        Ok((Pat::IntP(-(v as i64)), i + 2))
                    } else if v == 9223372036854775808u64 {
                        Ok((Pat::IntP(i64::MIN), i + 2))
                    } else {
                        Err(ParseError { at: i + 1 })
                    },
                    _ => Err(ParseError { at: i + 1 }),
                }
            } else {
                Err(ParseError { at: i + 1 })
            }
        },
        Tok::LParen => {
            let (p1, j) = parse_pat(src, toks, i + 1)?;
            if j < toks.len() && matches!(toks[j], Tok::Comma) {
                if j + 1 <= i {
                    Err(ParseError { at: j })
                } else {
                    let (p2, k) = parse_pat(src, toks, j + 1)?;
                    if k < toks.len() && matches!(toks[k], Tok::RParen) {
                        Ok((Pat::PairP(Box::new(p1), Box::new(p2)), k + 1))
                    } else {
                        Err(ParseError { at: k })
                    }
                }
            } else {
                Err(ParseError { at: j })
            }
        },
        _ => Err(ParseError { at: i }),
    }
}

} // verus!

// The node grammar continues in the same style: every function returns the
// parsed piece with the next token position, and a position that an inner
// call hands back is checked against the entry position before the parse
// goes on, so that progress is evident.

verus! {

use crate::ast::Attribute;
use crate::ast::Element;
use crate::ast::Field;
use crate::ast::If;
use crate::ast::IfClause;
use crate::ast::IfClauseTest;
use crate::ast::Match;
use crate::ast::MatchClause;
use crate::ast::Node;
use crate::ast::For;
use crate::ast::Stmt;
use crate::ast::Struct;
use crate::ast::Template;

/// Nodes until `}` or the end of input; the `}` is not consumed.
pub open spec fn sp_nodes(src: Seq<char>, toks: Seq<Tok>, i: int) -> Result<(Lst<Node>, int), int>
    decreases toks.len() - i, 26int,
{
    if i >= toks.len() || toks[i] == Tok::RBrace {
        Ok((Lst::Nil, i))
    } else {
        match sp_node(src, toks, i) {
            Ok((n, j)) => if j <= i || j > toks.len() {
                Err(j)
            } else {
                match sp_nodes(src, toks, j) {
                    Ok((ns, k)) => Ok((Lst::Cons(Box::new(n), Box::new(ns)), k)),
                    Err(e) => Err(e),
                }
            },
            Err(e) => Err(e),
        }
    }
}

/// One node, dispatched by lookahead.
pub open spec fn sp_node(src: Seq<char>, toks: Seq<Tok>, i: int) -> Result<(Node, int), int>
    decreases toks.len() - i, 25int,
{
    if i >= toks.len() {
        Err(i)
    } else {
        match toks[i] {
            Tok::Ident(_) => match sp_element(src, toks, i) {
                Ok((el, j)) => Ok((Node::Element(el), j)),
                Err(e) => Err(e),
            },
            Tok::Hash => match sp_element(src, toks, i) {
                Ok((el, j)) => Ok((Node::Element(el), j)),
                Err(e) => Err(e),
            },
            Tok::Dot => match sp_element(src, toks, i) {
                Ok((el, j)) => Ok((Node::Element(el), j)),
                Err(e) => Err(e),
            },
            Tok::Dollar => match sp_element(src, toks, i) {
                Ok((el, j)) => Ok((Node::Element(el), j)),
                Err(e) => Err(e),
            },
            Tok::At => if i + 1 >= toks.len() {
                Err(i)
            } else {
                match toks[i + 1] {
                    Tok::KwIf => match sp_if(src, toks, i + 2) {
                        Ok((f, j)) => Ok((Node::If(f), j)),
                        Err(e) => Err(e),
                    },
                    Tok::KwFor => match sp_for(src, toks, i + 2) {
                        Ok((f, j)) => Ok((Node::For(f), j)),
                        Err(e) => Err(e),
                    },
                    Tok::KwMatch => match sp_match(src, toks, i + 2) {
                        Ok((m, j)) => Ok((Node::Match(m), j)),
                        Err(e) => Err(e),
                    },
                    Tok::KwLet => match sp_let(src, toks, i + 2) {
                        Ok((s, j)) => Ok((Node::Stmt(s), j)),
                        Err(e) => Err(e),
                    },
                    _ => match sp_expr(src, toks, i + 1) {
                        Ok((e, j)) => Ok((Node::Expr(e), j)),
                        Err(e) => Err(e),
                    },
                }
            },
            Tok::Str(sp) => Ok((Node::Expr(Expr::StrLit(sp)), i + 1)),
            Tok::Int(v) => if v <= i64::MAX {
                Ok((Node::Expr(Expr::IntLit(v as i64)), i + 1))
            } else {
                Err(i)
            },
            Tok::LBrace => match sp_expr(src, toks, i + 1) {
                Ok((e, j)) => if j < i || j > toks.len() {
                    Err(j)
                } else if j < toks.len() && toks[j] == Tok::RBrace {
                    Ok((Node::Expr(e), j + 1))
                } else {
                    Err(j)
                },
                Err(e) => Err(e),
            },
            _ => Err(i),
        }
    }
}

/// A name, id or class value: a bare identifier (its spelling), a string
/// literal, or a braced expression.
pub open spec fn sp_iosle(src: Seq<char>, toks: Seq<Tok>, i: int) -> Result<(Expr, int), int>
    decreases toks.len() - i, 18int,
{
    if i >= toks.len() {
        Err(i)
    } else {
        match toks[i] {
            Tok::Ident(sp) => Ok((Expr::StrLit(sp), i + 1)),
            Tok::Str(sp) => Ok((Expr::StrLit(sp), i + 1)),
            Tok::LBrace => match sp_expr(src, toks, i + 1) {
                Ok((e, j)) => if j < i || j > toks.len() {
                    Err(j)
                } else if j < toks.len() && toks[j] == Tok::RBrace {
                    Ok((e, j + 1))
                } else {
                    Err(j)
                },
                Err(e) => Err(e),
            },
            _ => Err(i),
        }
    }
}

/// The `#id` / `.class` shorthand chain; a later id wins, classes accumulate
/// in order.
pub open spec fn sp_shorthands(src: Seq<char>, toks: Seq<Tok>, id: Option<Expr>, i: int) -> Result<
    ((Option<Expr>, Lst<Expr>), int),
    int,
>
    decreases toks.len() - i, 23int,
{
    if i < toks.len() && toks[i] == Tok::Hash {
        match sp_iosle(src, toks, i + 1) {
            Ok((v, j)) => if j <= i || j > toks.len() {
                Err(j)
            } else {
                sp_shorthands(src, toks, Some(v), j)
            },
            Err(e) => Err(e),
        }
    } else if i < toks.len() && toks[i] == Tok::Dot {
        match sp_iosle(src, toks, i + 1) {
            Ok((v, j)) => if j <= i || j > toks.len() {
                Err(j)
            } else {
                match sp_shorthands(src, toks, id, j) {
                    Ok(((idr, cs), k)) => Ok(((idr, Lst::Cons(Box::new(v), Box::new(cs))), k)),
                    Err(e) => Err(e),
                }
            },
            Err(e) => Err(e),
        }
    } else {
        Ok(((id, Lst::Nil), i))
    }
}

/// The attribute list after `[`, through the closing `]`.
pub open spec fn sp_attrs(src: Seq<char>, toks: Seq<Tok>, i: int) -> Result<
    (Lst<Attribute>, int),
    int,
>
    decreases toks.len() - i, 22int,
{
    if i < toks.len() && toks[i] == Tok::RBrack {
        Ok((Lst::Nil, i + 1))
    } else {
        match sp_iosle(src, toks, i) {
            Ok((name, j)) => if j < i || j > toks.len() {
                Err(j)
            } else {
                let vr: Result<(Expr, int), int> = if j < toks.len() && toks[j] == Tok::EqSign {
                    sp_expr(src, toks, j + 1)
                } else {
                    Ok((Expr::BoolLit(true), j))
                };
                match vr {
                    Ok((value, k)) => if k < i || k > toks.len() {
                        Err(k)
                    } else if k < toks.len() && toks[k] == Tok::RBrack {
                        Ok(
                            (
                                Lst::Cons(
                                    Box::new(Attribute::One(name, value)),
                                    Box::new(Lst::Nil),
                                ),
                                k + 1,
                            ),
                        )
                    } else if k < toks.len() && toks[k] == Tok::Comma {
                        if k + 1 <= i {
                            Err(k)
                        } else {
                            match sp_attrs(src, toks, k + 1) {
                                Ok((ats, m)) => Ok(
                                    (
                                        Lst::Cons(
                                            Box::new(Attribute::One(name, value)),
                                            Box::new(ats),
                                        ),
                                        m,
                                    ),
                                ),
                                Err(e) => Err(e),
                            }
                        }
                    } else {
                        Err(k)
                    },
                    Err(e) => Err(e),
                }
            },
            Err(e) => Err(e),
        }
    }
}

/// One element, from its first token.
pub open spec fn sp_element(src: Seq<char>, toks: Seq<Tok>, i: int) -> Result<(Element, int), int>
    decreases toks.len() - i, 24int,
{
    if i >= toks.len() {
        Err(i)
    } else {
        let head: Result<((Option<Expr>, Option<Expr>, Lst<Expr>), int), int> = match toks[i] {
            Tok::Ident(sp) => Ok(((Some(Expr::StrLit(sp)), None, Lst::Nil), i + 1)),
            Tok::Dollar => match sp_iosle(src, toks, i + 1) {
                Ok((e, j)) => Ok(((Some(e), None, Lst::Nil), j)),
                Err(e) => Err(e),
            },
            Tok::Hash => match sp_iosle(src, toks, i + 1) {
                Ok((e, j)) => Ok(((None, Some(e), Lst::Nil), j)),
                Err(e) => Err(e),
            },
            Tok::Dot => match sp_iosle(src, toks, i + 1) {
                Ok((e, j)) => Ok(((None, None, Lst::Cons(Box::new(e), Box::new(Lst::Nil))), j)),
                Err(e) => Err(e),
            },
            _ => Err(i),
        };
        match head {
            Ok(((name, id0, cs0), j0)) => if j0 <= i || j0 > toks.len() {
                Err(j0)
            } else {
                match sp_shorthands(src, toks, id0, j0) {
                    Ok(((id, cs1), j1)) => if j1 < i || j1 > toks.len() {
                        Err(j1)
                    } else {
                        let classes: Lst<Expr> = match cs0 {
                            Lst::Cons(c, _) => Lst::Cons(c, Box::new(cs1)),
                            Lst::Nil => cs1,
                        };
                        let ar: Result<(Lst<Attribute>, int), int> = if j1 < toks.len() && toks[j1]
                            == Tok::LBrack {
                            sp_attrs(src, toks, j1 + 1)
                        } else {
                            Ok((Lst::Nil, j1))
                        };
                        match ar {
                            Ok((attributes, j2)) => if j2 < i || j2 > toks.len() {
                                Err(j2)
                            } else if j2 < toks.len() && toks[j2] == Tok::Semi {
                                Ok(
                                    (
                                        Element {
                                            name,
                                            id,
                                            classes,
                                            attributes,
                                            children: None,
                                        },
                                        j2 + 1,
                                    ),
                                )
                            } else if j2 < toks.len() && toks[j2] == Tok::LBrace {
                                match sp_nodes(src, toks, j2 + 1) {
                                    Ok((ns, j3)) => if j3 < i || j3 >= toks.len() || toks[j3]
                                        != Tok::RBrace {
                                        Err(j3)
                                    } else {
                                        Ok(
                                            (
                                                Element {
                                                    name,
                                                    id,
                                                    classes,
                                                    attributes,
                                                    children: Some(ns),
                                                },
                                                j3 + 1,
                                            ),
                                        )
                                    },
                                    Err(e) => Err(e),
                                }
                            } else if j2 < toks.len() && (toks[j2] matches Tok::Str(_)) {
                                let sp = toks[j2]->Str_0;
                                Ok(
                                    (
                                        Element {
                                            name,
                                            id,
                                            classes,
                                            attributes,
                                            children: Some(
                                                Lst::Cons(
                                                    Box::new(Node::Expr(Expr::StrLit(sp))),
                                                    Box::new(Lst::Nil),
                                                ),
                                            ),
                                        },
                                        j2 + 1,
                                    ),
                                )
                            } else {
                                Err(j2)
                            },
                            Err(e) => Err(e),
                        }
                    },
                    Err(e) => Err(e),
                }
            },
            Err(e) => Err(e),
        }
    }
}

/// A conditional test: a refutable `let` binding or a boolean expression.
pub open spec fn sp_test(src: Seq<char>, toks: Seq<Tok>, i: int) -> Result<(IfClauseTest, int), int>
    decreases toks.len() - i, 20int,
{
    if i < toks.len() && toks[i] == Tok::KwLet {
        match sp_pat(src, toks, i + 1) {
            Ok((p, j)) => if j < i || j > toks.len() {
                Err(j)
            } else if j < toks.len() && toks[j] == Tok::EqSign {
                match sp_expr(src, toks, j + 1) {
                    Ok((e, k)) => Ok((IfClauseTest::Let(p, e), k)),
                    Err(e) => Err(e),
                }
            } else {
                Err(j)
            },
            Err(e) => Err(e),
        }
    } else {
        match sp_expr(src, toks, i) {
            Ok((e, j)) => Ok((IfClauseTest::Expr(e), j)),
            Err(e) => Err(e),
        }
    }
}

/// An `@if` chain, from after the `if` keyword.
pub open spec fn sp_if(src: Seq<char>, toks: Seq<Tok>, i: int) -> Result<(If, int), int>
    decreases toks.len() - i, 21int,
{
    match sp_test(src, toks, i) {
        Ok((test, j)) => if j < i || j > toks.len() {
            Err(j)
        } else if j < toks.len() && toks[j] == Tok::LBrace {
            match sp_nodes(src, toks, j + 1) {
                Ok((ns, k)) => if k < i || k >= toks.len() || toks[k] != Tok::RBrace {
                    Err(k)
                } else {
                    let clause = IfClause { test, consequent: ns };
                    if k + 2 < toks.len() && toks[k + 1] == Tok::KwElse && toks[k + 2]
                        == Tok::KwIf {
                        match sp_if(src, toks, k + 3) {
                            Ok((rest, m)) => Ok(
                                (
                                    If {
                                        clauses: Lst::Cons(
                                            Box::new(clause),
                                            Box::new(rest.clauses),
                                        ),
                                        default: rest.default,
                                    },
                                    m,
                                ),
                            ),
                            Err(e) => Err(e),
                        }
                    } else if k + 2 < toks.len() && toks[k + 1] == Tok::KwElse && toks[k + 2]
                        == Tok::LBrace {
                        match sp_nodes(src, toks, k + 3) {
                            Ok((ds, m)) => if m < i || m >= toks.len() || toks[m] != Tok::RBrace {
                                Err(m)
                            } else {
                                Ok(
                                    (
                                        If {
                                            clauses: Lst::Cons(Box::new(clause), Box::new(Lst::Nil)),
                                            default: Some(ds),
                                        },
                                        m + 1,
                                    ),
                                )
                            },
                            Err(e) => Err(e),
                        }
                    } else {
                        Ok(
                            (
                                If {
                                    clauses: Lst::Cons(Box::new(clause), Box::new(Lst::Nil)),
                                    default: None,
                                },
                                k + 1,
                            ),
                        )
                    }
                },
                Err(e) => Err(e),
            }
        } else {
            Err(j)
        },
        Err(e) => Err(e),
    }
}

/// A `@for` loop, from after the `for` keyword.
pub open spec fn sp_for(src: Seq<char>, toks: Seq<Tok>, i: int) -> Result<(For, int), int>
    decreases toks.len() - i, 19int,
{
    match sp_pat(src, toks, i) {
        Ok((p, j)) => if j < i || j > toks.len() {
            Err(j)
        } else if j < toks.len() && toks[j] == Tok::KwIn {
            match sp_expr(src, toks, j + 1) {
                Ok((e, k)) => if k < i || k > toks.len() {
                    Err(k)
                } else if k < toks.len() && toks[k] == Tok::LBrace {
                    match sp_nodes(src, toks, k + 1) {
                        Ok((ns, m)) => if m < i || m >= toks.len() || toks[m] != Tok::RBrace {
                            Err(m)
                        } else {
                            Ok((For { pat: p, expr: e, body: ns }, m + 1))
                        },
                        Err(e) => Err(e),
                    }
                } else {
                    Err(k)
                },
                Err(e) => Err(e),
            }
        } else {
            Err(j)
        },
        Err(e) => Err(e),
    }
}

/// A `@let` statement, from after the `let` keyword, through the `;`.
pub open spec fn sp_let(src: Seq<char>, toks: Seq<Tok>, i: int) -> Result<(Stmt, int), int>
    decreases toks.len() - i, 19int,
{
    match sp_pat(src, toks, i) {
        Ok((p, j)) => if j < i || j > toks.len() {
            Err(j)
        } else if j < toks.len() && toks[j] == Tok::EqSign {
            match sp_expr(src, toks, j + 1) {
                Ok((e, k)) => if k < toks.len() && toks[k] == Tok::Semi {
                    Ok((Stmt { pat: p, expr: e }, k + 1))
                } else {
                    Err(k)
                },
                Err(e) => Err(e),
            }
        } else {
            Err(j)
        },
        Err(e) => Err(e),
    }
}

/// A `@match`, from after the `match` keyword.
pub open spec fn sp_match(src: Seq<char>, toks: Seq<Tok>, i: int) -> Result<(Match, int), int>
    decreases toks.len() - i, 19int,
{
    match sp_expr(src, toks, i) {
        Ok((e, j)) => if j < i || j > toks.len() {
            Err(j)
        } else if j < toks.len() && toks[j] == Tok::LBrace {
            match sp_marms(src, toks, j + 1) {
                Ok((cs, k)) => Ok((Match { expr: e, clauses: cs }, k)),
                Err(er) => Err(er),
            }
        } else {
            Err(j)
        },
        Err(e) => Err(e),
    }
}

/// The `|`-alternation tail of an arm's pattern.
pub open spec fn sp_orchain(src: Seq<char>, toks: Seq<Tok>, acc: Pat, i: int) -> Result<
    (Pat, int),
    int,
>
    decreases toks.len() - i, 17int,
{
    if i < toks.len() && toks[i] == Tok::Pipe {
        match sp_pat(src, toks, i + 1) {
            Ok((p, j)) => if j <= i || j > toks.len() {
                Err(j)
            } else {
                sp_orchain(src, toks, Pat::OrP(Box::new(acc), Box::new(p)), j)
            },
            Err(e) => Err(e),
        }
    } else {
        Ok((acc, i))
    }
}

/// The arms of a `@match`, through the closing `}`.
pub open spec fn sp_marms(src: Seq<char>, toks: Seq<Tok>, i: int) -> Result<
    (Lst<MatchClause>, int),
    int,
>
    decreases toks.len() - i, 18int,
{
    if i < toks.len() && toks[i] == Tok::RBrace {
        Ok((Lst::Nil, i + 1))
    } else {
        match sp_pat(src, toks, i) {
            Ok((p0, j0)) => if j0 < i || j0 > toks.len() {
                Err(j0)
            } else {
                match sp_orchain(src, toks, p0, j0) {
                    Ok((pat, j)) => if j < i || j > toks.len() {
                        Err(j)
                    } else {
                        let gr: Result<(Option<Expr>, int), int> = if j < toks.len() && toks[j]
                            == Tok::KwIf {
                            match sp_expr(src, toks, j + 1) {
                                Ok((g, k)) => Ok((Some(g), k)),
                                Err(e) => Err(e),
                            }
                        } else {
                            Ok((None, j))
                        };
                        match gr {
                            Ok((guard, k)) => if k < i || k > toks.len() {
                                Err(k)
                            } else if k + 1 < toks.len() && toks[k] == Tok::FatArrow && toks[k + 1]
                                == Tok::LBrace {
                                match sp_nodes(src, toks, k + 2) {
                                    Ok((ns, m)) => if m < i || m >= toks.len() || toks[m]
                                        != Tok::RBrace {
                                        Err(m)
                                    } else if m + 1 <= i {
                                        Err(m)
                                    } else {
                                        match sp_marms(src, toks, m + 1) {
                                            Ok((rest, z)) => Ok(
                                                (
                                                    Lst::Cons(
                                                        Box::new(
                                                            MatchClause {
                                                                pat,
                                                                guard,
                                                                consequent: ns,
                                                            },
                                                        ),
                                                        Box::new(rest),
                                                    ),
                                                    z,
                                                ),
                                            ),
                                            Err(e) => Err(e),
                                        }
                                    },
                                    Err(e) => Err(e),
                                }
                            } else {
                                Err(k)
                            },
                            Err(e) => Err(e),
                        }
                    },
                    Err(e) => Err(e),
                }
            },
            Err(e) => Err(e),
        }
    }
}

/// The field list after `(`, through the closing `)`.
pub open spec fn sp_fields(src: Seq<char>, toks: Seq<Tok>, i: int) -> Result<(Lst<Field>, int), int>
    decreases toks.len() - i, 28int,
{
    if i < toks.len() && toks[i] == Tok::RParen {
        Ok((Lst::Nil, i + 1))
    } else if i + 2 < toks.len() && (toks[i] matches Tok::Ident(_)) && toks[i + 1] == Tok::Colon
        && (toks[i + 2] matches Tok::Ident(_)) {
        let f = Field { name: toks[i]->Ident_0, ty: toks[i + 2]->Ident_0 };
        if i + 3 < toks.len() && toks[i + 3] == Tok::Comma {
            match sp_fields(src, toks, i + 4) {
                Ok((fs, j)) => Ok((Lst::Cons(Box::new(f), Box::new(fs)), j)),
                Err(e) => Err(e),
            }
        } else if i + 3 < toks.len() && toks[i + 3] == Tok::RParen {
            Ok((Lst::Cons(Box::new(f), Box::new(Lst::Nil)), i + 4))
        } else {
            Err(i + 3)
        }
    } else {
        Err(i)
    }
}

/// One named template definition.
pub open spec fn sp_struct(src: Seq<char>, toks: Seq<Tok>, i: int) -> Result<(Struct, int), int>
    decreases toks.len() - i, 29int,
{
    if i < toks.len() && (toks[i] matches Tok::Ident(_)) {
        let name = toks[i]->Ident_0;
        let fr: Result<(Lst<Field>, int), int> = if i + 1 < toks.len() && toks[i + 1]
            == Tok::LParen {
            sp_fields(src, toks, i + 2)
        } else {
            Ok((Lst::Nil, i + 1))
        };
        match fr {
            Ok((fields, j)) => if j <= i || j > toks.len() {
                Err(j)
            } else if j < toks.len() && toks[j] == Tok::LBrace {
                match sp_nodes(src, toks, j + 1) {
                    Ok((ns, k)) => if k < i || k >= toks.len() || toks[k] != Tok::RBrace {
                        Err(k)
                    } else {
                        Ok(
                            (
                                Struct {
                                    name,
                                    fields,
                                    children: ns,
                                    size_hint: (k + 1 - i) as usize,
                                },
                                k + 1,
                            ),
                        )
                    },
                    Err(e) => Err(e),
                }
            } else {
                Err(j)
            },
            Err(e) => Err(e),
        }
    } else {
        Err(i)
    }
}

/// Every named template definition until the end of input.
pub open spec fn sp_structs(src: Seq<char>, toks: Seq<Tok>, i: int) -> Result<
    (Lst<Struct>, int),
    int,
>
    decreases toks.len() - i, 30int,
{
    if i >= toks.len() {
        Ok((Lst::Nil, i))
    } else {
        match sp_struct(src, toks, i) {
            Ok((s, j)) => if j <= i || j > toks.len() {
                Err(j)
            } else {
                match sp_structs(src, toks, j) {
                    Ok((ss, k)) => Ok((Lst::Cons(Box::new(s), Box::new(ss)), k)),
                    Err(e) => Err(e),
                }
            },
            Err(e) => Err(e),
        }
    }
}

/// An anonymous template: a node sequence covering the whole input.
pub open spec fn sp_template(src: Seq<char>, toks: Seq<Tok>) -> Result<Template, int> {
    match sp_nodes(src, toks, 0) {
        Ok((ns, j)) => if j == toks.len() {
            Ok(Template { children: ns })
        } else {
            Err(j)
        },
        Err(e) => Err(e),
    }
}

} // verus!

verus! {

/// Executable node sequence.
pub(crate) fn parse_nodes(src: &Vec<char>, toks: &Vec<Tok>, i: usize) -> (r: Result<
    (Lst<Node>, usize),
    ParseError,
>)
    requires
        i <= toks.len(),
    ensures
        match r {
            Ok((x, j)) => sp_nodes(src@, toks@, i as int) == Ok::<(Lst<Node>, int), int>(
                (x, j as int),
            ) && i <= j <= toks.len(),
            Err(e) => sp_nodes(src@, toks@, i as int) == Err::<(Lst<Node>, int), int>(e.at as int),
        },
    decreases toks.len() - i, 26int,
{
    if i >= toks.len() || matches!(toks[i], Tok::RBrace) {
        Ok((Lst::Nil, i))
    } else {
        let (n, j) = parse_node(src, toks, i)?;
        if j <= i {
            Err(ParseError { at: j })
        } else {
            let (ns, k) = parse_nodes(src, toks, j)?;
            Ok((Lst::Cons(Box::new(n), Box::new(ns)), k))
        }
    }
}

/// Executable node dispatch.
fn parse_node(src: &Vec<char>, toks: &Vec<Tok>, i: usize) -> (r: Result<
    (Node, usize),
    ParseError,
>)
    requires
        i <= toks.len(),
    ensures
        match r {
            Ok((x, j)) => sp_node(src@, toks@, i as int) == Ok::<(Node, int), int>((x, j as int))
                && i <= j <= toks.len(),
            Err(e) => sp_node(src@, toks@, i as int) == Err::<(Node, int), int>(e.at as int),
        },
    decreases toks.len() - i, 25int,
{
    if i >= toks.len() {
        return Err(ParseError { at: i });
    }
    match toks[i] {
        Tok::Ident(_) => {
            let (el, j) = parse_element(src, toks, i)?;
            Ok((Node::Element(el), j))
        },
        Tok::Hash => {
            let (el, j) = parse_element(src, toks, i)?;
            Ok((Node::Element(el), j))
        },
        Tok::Dot => {
            let (el, j) = parse_element(src, toks, i)?;
            Ok((Node::Element(el), j))
        },
        Tok::Dollar => {
            let (el, j) = parse_element(src, toks, i)?;
            Ok((Node::Element(el), j))
        },
        Tok::At => {
            if i + 1 >= toks.len() {
                Err(ParseError { at: i })
            } else {
                match toks[i + 1] {
                    Tok::KwIf => {
                        let (f, j) = parse_if(src, toks, i + 2)?;
                        Ok((Node::If(f), j))
                    },
                    Tok::KwFor => {
                        let (f, j) = parse_for(src, toks, i + 2)?;
                        Ok((Node::For(f), j))
                    },
                    Tok::KwMatch => {
                        let (m, j) = parse_match(src, toks, i + 2)?;
                        Ok((Node::Match(m), j))
                    },
                    Tok::KwLet => {
                        let (s, j) = parse_let(src, toks, i + 2)?;
                        Ok((Node::Stmt(s), j))
                    },
                    _ => {
                        let (e, j) = parse_expr(src, toks, i + 1)?;
                        Ok((Node::Expr(e), j))
                    },
                }
            }
        },
        Tok::Str(sp) => Ok((Node::Expr(Expr::StrLit(sp)), i + 1)),
        Tok::Int(v) => if v <= i64::MAX as u64 {
            Ok((Node::Expr(Expr::IntLit(v as i64)), i + 1))
        } else {
            Err(ParseError { at: i })
        },
        Tok::LBrace => {
            let (e, j) = parse_expr(src, toks, i + 1)?;
            if j < toks.len() && matches!(toks[j], Tok::RBrace) {
                Ok((Node::Expr(e), j + 1))
            } else {
                Err(ParseError { at: j })
            }
        },
        _ => Err(ParseError { at: i }),
    }
}

/// Executable name/id/class value.
fn parse_iosle(src: &Vec<char>, toks: &Vec<Tok>, i: usize) -> (r: Result<
    (Expr, usize),
    ParseError,
>)
    requires
        i <= toks.len(),
    ensures
        match r {
            Ok((x, j)) => sp_iosle(src@, toks@, i as int) == Ok::<(Expr, int), int>((x, j as int))
                && i <= j <= toks.len(),
            Err(e) => sp_iosle(src@, toks@, i as int) == Err::<(Expr, int), int>(e.at as int),
        },
    decreases toks.len() - i, 18int,
{
    if i >= toks.len() {
        return Err(ParseError { at: i });
    }
    match toks[i] {
        Tok::Ident(sp) => Ok((Expr::StrLit(sp), i + 1)),
        Tok::Str(sp) => Ok((Expr::StrLit(sp), i + 1)),
        Tok::LBrace => {
            let (e, j) = parse_expr(src, toks, i + 1)?;
            if j < toks.len() && matches!(toks[j], Tok::RBrace) {
                Ok((e, j + 1))
            } else {
                Err(ParseError { at: j })
            }
        },
        _ => Err(ParseError { at: i }),
    }
}

/// Executable shorthand chain.
fn parse_shorthands(src: &Vec<char>, toks: &Vec<Tok>, id: Option<Expr>, i: usize) -> (r: Result<
    ((Option<Expr>, Lst<Expr>), usize),
    ParseError,
>)
    requires
        i <= toks.len(),
    ensures
        match r {
            Ok((x, j)) => sp_shorthands(src@, toks@, id, i as int) == Ok::<
                ((Option<Expr>, Lst<Expr>), int),
                int,
            >((x, j as int)) && i <= j <= toks.len(),
            Err(e) => sp_shorthands(src@, toks@, id, i as int) == Err::<
                ((Option<Expr>, Lst<Expr>), int),
                int,
            >(e.at as int),
        },
    decreases toks.len() - i, 23int,
{
    if i < toks.len() && matches!(toks[i], Tok::Hash) {
        let (v, j) = parse_iosle(src, toks, i + 1)?;
        parse_shorthands(src, toks, Some(v), j)
    } else if i < toks.len() && matches!(toks[i], Tok::Dot) {
        let (v, j) = parse_iosle(src, toks, i + 1)?;
        let ((idr, cs), k) = parse_shorthands(src, toks, id, j)?;
        Ok(((idr, Lst::Cons(Box::new(v), Box::new(cs))), k))
    } else {
        Ok(((id, Lst::Nil), i))
    }
}

/// Executable attribute list.
fn parse_attrs(src: &Vec<char>, toks: &Vec<Tok>, i: usize) -> (r: Result<
    (Lst<Attribute>, usize),
    ParseError,
>)
    requires
        i <= toks.len(),
    ensures
        match r {
            Ok((x, j)) => sp_attrs(src@, toks@, i as int) == Ok::<(Lst<Attribute>, int), int>(
                (x, j as int),
            ) && i <= j <= toks.len(),
            Err(e) => sp_attrs(src@, toks@, i as int) == Err::<(Lst<Attribute>, int), int>(
                e.at as int,
            ),
        },
    decreases toks.len() - i, 22int,
{
    if i < toks.len() && matches!(toks[i], Tok::RBrack) {
        Ok((Lst::Nil, i + 1))
    } else {
        let (name, j) = parse_iosle(src, toks, i)?;
        let (value, k) = if j < toks.len() && matches!(toks[j], Tok::EqSign) {
            let (v, k) = parse_expr(src, toks, j + 1)?;
            (v, k)
        } else {
            (Expr::BoolLit(true), j)
        };
        if k < toks.len() && matches!(toks[k], Tok::RBrack) {
            Ok((Lst::Cons(Box::new(Attribute::One(name, value)), Box::new(Lst::Nil)), k + 1))
        } else if k < toks.len() && matches!(toks[k], Tok::Comma) {
            let (ats, m) = parse_attrs(src, toks, k + 1)?;
            Ok((Lst::Cons(Box::new(Attribute::One(name, value)), Box::new(ats)), m))
        } else {
            Err(ParseError { at: k })
        }
    }
}

/// Executable element.
fn parse_element(src: &Vec<char>, toks: &Vec<Tok>, i: usize) -> (r: Result<
    (Element, usize),
    ParseError,
>)
    requires
        i <= toks.len(),
    ensures
        match r {
            Ok((x, j)) => sp_element(src@, toks@, i as int) == Ok::<(Element, int), int>(
                (x, j as int),
            ) && i <= j <= toks.len(),
            Err(e) => sp_element(src@, toks@, i as int) == Err::<(Element, int), int>(e.at as int),
        },
    decreases toks.len() - i, 24int,
{
    if i >= toks.len() {
        return Err(ParseError { at: i });
    }
    let ((name, id0, cs0), j0) = match toks[i] {
        Tok::Ident(sp) => ((Some(Expr::StrLit(sp)), None, Lst::Nil), i + 1),
        Tok::Dollar => {
            let (e, j) = parse_iosle(src, toks, i + 1)?;
            ((Some(e), None, Lst::Nil), j)
        },
        Tok::Hash => {
            let (e, j) = parse_iosle(src, toks, i + 1)?;
            ((None, Some(e), Lst::Nil), j)
        },
        Tok::Dot => {
            let (e, j) = parse_iosle(src, toks, i + 1)?;
            ((None, None, Lst::Cons(Box::new(e), Box::new(Lst::Nil))), j)
        },
        _ => {
            return Err(ParseError { at: i });
        },
    };
    let ((id, cs1), j1) = parse_shorthands(src, toks, id0, j0)?;
    let classes: Lst<Expr> = match cs0 {
        Lst::Cons(c, _) => Lst::Cons(c, Box::new(cs1)),
        Lst::Nil => cs1,
    };
    let (attributes, j2) = if j1 < toks.len() && matches!(toks[j1], Tok::LBrack) {
        let (ats, j2) = parse_attrs(src, toks, j1 + 1)?;
        (ats, j2)
    } else {
        (Lst::Nil, j1)
    };
    if j2 < toks.len() && matches!(toks[j2], Tok::Semi) {
        Ok((Element { name, id, classes, attributes, children: None }, j2 + 1))
    } else if j2 < toks.len() && matches!(toks[j2], Tok::LBrace) {
        let (ns, j3) = parse_nodes(src, toks, j2 + 1)?;
        if j3 >= toks.len() || !matches!(toks[j3], Tok::RBrace) {
            Err(ParseError { at: j3 })
        } else {
            Ok((Element { name, id, classes, attributes, children: Some(ns) }, j3 + 1))
        }
    } else if j2 < toks.len() && matches!(toks[j2], Tok::Str(_)) {
        let sp = match toks[j2] {
            Tok::Str(sp) => sp,
            _ => Span { lo: 0, hi: 0 },
        };
        Ok(
            (
                Element {
                    name,
                    id,
                    classes,
                    attributes,
                    children: Some(
                        Lst::Cons(Box::new(Node::Expr(Expr::StrLit(sp))), Box::new(Lst::Nil)),
                    ),
                },
                j2 + 1,
            ),
        )
    } else {
        Err(ParseError { at: j2 })
    }
}

/// Executable conditional test.
fn parse_test(src: &Vec<char>, toks: &Vec<Tok>, i: usize) -> (r: Result<
    (IfClauseTest, usize),
    ParseError,
>)
    requires
        i <= toks.len(),
    ensures
        match r {
            Ok((x, j)) => sp_test(src@, toks@, i as int) == Ok::<(IfClauseTest, int), int>(
                (x, j as int),
            ) && i <= j <= toks.len(),
            Err(e) => sp_test(src@, toks@, i as int) == Err::<(IfClauseTest, int), int>(
                e.at as int,
            ),
        },
    decreases toks.len() - i, 20int,
{
    if i < toks.len() && matches!(toks[i], Tok::KwLet) {
        let (p, j) = parse_pat(src, toks, i + 1)?;
        if j < toks.len() && matches!(toks[j], Tok::EqSign) {
            let (e, k) = parse_expr(src, toks, j + 1)?;
            Ok((IfClauseTest::Let(p, e), k))
        } else {
            Err(ParseError { at: j })
        }
    } else {
        let (e, j) = parse_expr(src, toks, i)?;
        Ok((IfClauseTest::Expr(e), j))
    }
}

/// Executable `@if` chain.
fn parse_if(src: &Vec<char>, toks: &Vec<Tok>, i: usize) -> (r: Result<(If, usize), ParseError>)
    requires
        i <= toks.len(),
    ensures
        match r {
            Ok((x, j)) => sp_if(src@, toks@, i as int) == Ok::<(If, int), int>((x, j as int)) && i
                <= j <= toks.len(),
            Err(e) => sp_if(src@, toks@, i as int) == Err::<(If, int), int>(e.at as int),
        },
    decreases toks.len() - i, 21int,
{
    let (test, j) = parse_test(src, toks, i)?;
    if j < toks.len() && matches!(toks[j], Tok::LBrace) {
        let (ns, k) = parse_nodes(src, toks, j + 1)?;
        if k >= toks.len() || !matches!(toks[k], Tok::RBrace) {
            return Err(ParseError { at: k });
        }
        let clause = IfClause { test, consequent: ns };
        if toks.len() - k > 2 && matches!(toks[k + 1], Tok::KwElse) && matches!(
            toks[k + 2],
            Tok::KwIf,
        ) {
            let (rest, m) = parse_if(src, toks, k + 3)?;
            Ok(
                (
                    If {
                        clauses: Lst::Cons(Box::new(clause), Box::new(rest.clauses)),
                        default: rest.default,
                    },
                    m,
                ),
            )
        } else if toks.len() - k > 2 && matches!(toks[k + 1], Tok::KwElse) && matches!(
            toks[k + 2],
            Tok::LBrace,
        ) {
            let (ds, m) = parse_nodes(src, toks, k + 3)?;
            if m >= toks.len() || !matches!(toks[m], Tok::RBrace) {
                Err(ParseError { at: m })
            } else {
                Ok(
                    (
                        If {
                            clauses: Lst::Cons(Box::new(clause), Box::new(Lst::Nil)),
                            default: Some(ds),
                        },
                        m + 1,
                    ),
                )
            }
        } else {
            Ok(
                (
                    If { clauses: Lst::Cons(Box::new(clause), Box::new(Lst::Nil)), default: None },
                    k + 1,
                ),
            )
        }
    } else {
        Err(ParseError { at: j })
    }
}

/// Executable `@for`.
fn parse_for(src: &Vec<char>, toks: &Vec<Tok>, i: usize) -> (r: Result<(For, usize), ParseError>)
    requires
        i <= toks.len(),
    ensures
        match r {
            Ok((x, j)) => sp_for(src@, toks@, i as int) == Ok::<(For, int), int>((x, j as int)) && i
                <= j <= toks.len(),
            Err(e) => sp_for(src@, toks@, i as int) == Err::<(For, int), int>(e.at as int),
        },
    decreases toks.len() - i, 19int,
{
    let (p, j) = parse_pat(src, toks, i)?;
    if j < toks.len() && matches!(toks[j], Tok::KwIn) {
        let (e, k) = parse_expr(src, toks, j + 1)?;
        if k < toks.len() && matches!(toks[k], Tok::LBrace) {
            let (ns, m) = parse_nodes(src, toks, k + 1)?;
            if m >= toks.len() || !matches!(toks[m], Tok::RBrace) {
                Err(ParseError { at: m })
            } else {
                Ok((For { pat: p, expr: e, body: ns }, m + 1))
            }
        } else {
            Err(ParseError { at: k })
        }
    } else {
        Err(ParseError { at: j })
    }
}

/// Executable `@let`.
fn parse_let(src: &Vec<char>, toks: &Vec<Tok>, i: usize) -> (r: Result<(Stmt, usize), ParseError>)
    requires
        i <= toks.len(),
    ensures
        match r {
            Ok((x, j)) => sp_let(src@, toks@, i as int) == Ok::<(Stmt, int), int>((x, j as int))
                && i <= j <= toks.len(),
            Err(e) => sp_let(src@, toks@, i as int) == Err::<(Stmt, int), int>(e.at as int),
        },
    decreases toks.len() - i, 19int,
{
    let (p, j) = parse_pat(src, toks, i)?;
    if j < toks.len() && matches!(toks[j], Tok::EqSign) {
        let (e, k) = parse_expr(src, toks, j + 1)?;
        if k < toks.len() && matches!(toks[k], Tok::Semi) {
            Ok((Stmt { pat: p, expr: e }, k + 1))
        } else {
            Err(ParseError { at: k })
        }
    } else {
        Err(ParseError { at: j })
    }
}

/// Executable `@match`.
fn parse_match(src: &Vec<char>, toks: &Vec<Tok>, i: usize) -> (r: Result<
    (Match, usize),
    ParseError,
>)
    requires
        i <= toks.len(),
    ensures
        match r {
            Ok((x, j)) => sp_match(src@, toks@, i as int) == Ok::<(Match, int), int>((x, j as int))
                && i <= j <= toks.len(),
            Err(e) => sp_match(src@, toks@, i as int) == Err::<(Match, int), int>(e.at as int),
        },
    decreases toks.len() - i, 19int,
{
    let (e, j) = parse_expr(src, toks, i)?;
    if j < toks.len() && matches!(toks[j], Tok::LBrace) {
        let (cs, k) = parse_marms(src, toks, j + 1)?;
        Ok((Match { expr: e, clauses: cs }, k))
    } else {
        Err(ParseError { at: j })
    }
}

/// Executable alternation tail.
fn parse_orchain(src: &Vec<char>, toks: &Vec<Tok>, acc: Pat, i: usize) -> (r: Result<
    (Pat, usize),
    ParseError,
>)
    requires
        i <= toks.len(),
    ensures
        match r {
            Ok((x, j)) => sp_orchain(src@, toks@, acc, i as int) == Ok::<(Pat, int), int>(
                (x, j as int),
            ) && i <= j <= toks.len(),
            Err(e) => sp_orchain(src@, toks@, acc, i as int) == Err::<(Pat, int), int>(e.at as int),
        },
    decreases toks.len() - i, 17int,
{
    if i < toks.len() && matches!(toks[i], Tok::Pipe) {
        let (p, j) = parse_pat(src, toks, i + 1)?;
        parse_orchain(src, toks, Pat::OrP(Box::new(acc), Box::new(p)), j)
    } else {
        Ok((acc, i))
    }
}

/// Executable match arms.
fn parse_marms(src: &Vec<char>, toks: &Vec<Tok>, i: usize) -> (r: Result<
    (Lst<MatchClause>, usize),
    ParseError,
>)
    requires
        i <= toks.len(),
    ensures
        match r {
            Ok((x, j)) => sp_marms(src@, toks@, i as int) == Ok::<(Lst<MatchClause>, int), int>(
                (x, j as int),
            ) && i <= j <= toks.len(),
            Err(e) => sp_marms(src@, toks@, i as int) == Err::<(Lst<MatchClause>, int), int>(
                e.at as int,
            ),
        },
    decreases toks.len() - i, 18int,
{
    if i < toks.len() && matches!(toks[i], Tok::RBrace) {
        Ok((Lst::Nil, i + 1))
    } else {
        let (p0, j0) = parse_pat(src, toks, i)?;
        let (pat, j) = parse_orchain(src, toks, p0, j0)?;
        let (guard, k) = if j < toks.len() && matches!(toks[j], Tok::KwIf) {
            let (g, k) = parse_expr(src, toks, j + 1)?;
            (Some(g), k)
        } else {
            (None, j)
        };
        if toks.len() - k > 1 && matches!(toks[k], Tok::FatArrow) && matches!(
            toks[k + 1],
            Tok::LBrace,
        ) {
            let (ns, m) = parse_nodes(src, toks, k + 2)?;
            if m >= toks.len() || !matches!(toks[m], Tok::RBrace) {
                Err(ParseError { at: m })
            } else {
                let (rest, z) = parse_marms(src, toks, m + 1)?;
                Ok((Lst::Cons(Box::new(MatchClause { pat, guard, consequent: ns }), Box::new(rest)), z))
            }
        } else {
            Err(ParseError { at: k })
        }
    }
}

/// Executable field list.
fn parse_fields(src: &Vec<char>, toks: &Vec<Tok>, i: usize) -> (r: Result<
    (Lst<Field>, usize),
    ParseError,
>)
    requires
        i <= toks.len(),
    ensures
        match r {
            Ok((x, j)) => sp_fields(src@, toks@, i as int) == Ok::<(Lst<Field>, int), int>(
                (x, j as int),
            ) && i <= j <= toks.len(),
            Err(e) => sp_fields(src@, toks@, i as int) == Err::<(Lst<Field>, int), int>(
                e.at as int,
            ),
        },
    decreases toks.len() - i, 28int,
{
    if i < toks.len() && matches!(toks[i], Tok::RParen) {
        Ok((Lst::Nil, i + 1))
    } else if toks.len() - i > 2 && matches!(toks[i], Tok::Ident(_)) && matches!(
        toks[i + 1],
        Tok::Colon,
    ) && matches!(toks[i + 2], Tok::Ident(_)) {
        let nsp = match toks[i] {
            Tok::Ident(sp) => sp,
            _ => Span { lo: 0, hi: 0 },
        };
        let tsp = match toks[i + 2] {
            Tok::Ident(sp) => sp,
            _ => Span { lo: 0, hi: 0 },
        };
        let f = Field { name: nsp, ty: tsp };
        if toks.len() - i > 3 && matches!(toks[i + 3], Tok::Comma) {
            let (fs, j) = parse_fields(src, toks, i + 4)?;
            Ok((Lst::Cons(Box::new(f), Box::new(fs)), j))
        } else if toks.len() - i > 3 && matches!(toks[i + 3], Tok::RParen) {
            Ok((Lst::Cons(Box::new(f), Box::new(Lst::Nil)), i + 4))
        } else {
            Err(ParseError { at: i + 3 })
        }
    } else {
        Err(ParseError { at: i })
    }
}

/// Executable named template definition.
pub(crate) fn parse_struct(src: &Vec<char>, toks: &Vec<Tok>, i: usize) -> (r: Result<
    (Struct, usize),
    ParseError,
>)
    requires
        i <= toks.len(),
    ensures
        match r {
            Ok((x, j)) => sp_struct(src@, toks@, i as int) == Ok::<(Struct, int), int>(
                (x, j as int),
            ) && i <= j <= toks.len(),
            Err(e) => sp_struct(src@, toks@, i as int) == Err::<(Struct, int), int>(e.at as int),
        },
    decreases toks.len() - i, 29int,
{
    if i < toks.len() && matches!(toks[i], Tok::Ident(_)) {
        let name = match toks[i] {
            Tok::Ident(sp) => sp,
            _ => Span { lo: 0, hi: 0 },
        };
        let (fields, j) = if i + 1 < toks.len() && matches!(toks[i + 1], Tok::LParen) {
            let (fs, j) = parse_fields(src, toks, i + 2)?;
            (fs, j)
        } else {
            (Lst::Nil, i + 1)
        };
        if j < toks.len() && matches!(toks[j], Tok::LBrace) {
            let (ns, k) = parse_nodes(src, toks, j + 1)?;
            if k >= toks.len() || !matches!(toks[k], Tok::RBrace) {
                Err(ParseError { at: k })
            } else {
                Ok((Struct { name, fields, children: ns, size_hint: k + 1 - i }, k + 1))
            }
        } else {
            Err(ParseError { at: j })
        }
    } else {
        Err(ParseError { at: i })
    }
}

/// Executable definition list.
pub(crate) fn parse_structs(src: &Vec<char>, toks: &Vec<Tok>, i: usize) -> (r: Result<
    (Lst<Struct>, usize),
    ParseError,
>)
    requires
        i <= toks.len(),
    ensures
        match r {
            Ok((x, j)) => sp_structs(src@, toks@, i as int) == Ok::<(Lst<Struct>, int), int>(
                (x, j as int),
            ) && i <= j <= toks.len(),
            Err(e) => sp_structs(src@, toks@, i as int) == Err::<(Lst<Struct>, int), int>(
                e.at as int,
            ),
        },
    decreases toks.len() - i, 30int,
{
    if i >= toks.len() {
        Ok((Lst::Nil, i))
    } else {
        let (s, j) = parse_struct(src, toks, i)?;
        if j <= i {
            Err(ParseError { at: j })
        } else {
            let (ss, k) = parse_structs(src, toks, j)?;
            Ok((Lst::Cons(Box::new(s), Box::new(ss)), k))
        }
    }
}

/// Executable anonymous template parse.
pub(crate) fn parse_template(src: &Vec<char>, toks: &Vec<Tok>) -> (r: Result<Template, ParseError>)
    ensures
        match r {
            Ok(t) => sp_template(src@, toks@) == Ok::<Template, int>(t),
            Err(e) => sp_template(src@, toks@) == Err::<Template, int>(e.at as int),
        },
{
    let (ns, j) = match parse_nodes(src, toks, 0) {
        Ok(x) => x,
        Err(e) => {
            return Err(e);
        },
    };
    if j == toks.len() {
        Ok(Template { children: ns })
    } else {
        Err(ParseError { at: j })
    }
}

} // verus!
