//! Render semantics: what running a write-program means.
//!
//! All functions here are specifications over the program shadow (`ProgS`),
//! the value shadow (`ValueS`) and an environment of bindings. The
//! executable evaluator and interpreter are verified against them.

use crate::ast::BinOp;
use crate::ast::Expr;
use crate::ast::IfClauseTest;
use crate::ast::Lst;
use crate::ast::Pat;
use crate::ast::Span;
use crate::ast::span_text;
use crate::escape::escape_seq;
use crate::program::IfArmS;
use crate::program::MatchArmS;
use crate::program::OpS;
use crate::program::ProgS;
use crate::value::Value;
use crate::value::ValueS;
use crate::value::rendered_s;
use crate::value::vval;
use std::rc::Rc;
use vstd::prelude::*;

verus! {

/// The shadow of an executable environment.
pub open spec fn venv(env: Seq<(String, Rc<Value>)>) -> Seq<(Seq<char>, ValueS)> {
    Seq::new(env.len(), |i: int| (env[i].0@, vval(*env[i].1)))
}

/// A render-time error: an unbound name, a value of the wrong shape for the
/// construct consuming it, arithmetic overflow, or a match with no taken arm.
#[derive(Clone, Copy, PartialEq, Eq, Structural, Debug)]
pub enum RErr {
    Unbound(Span),
    Mismatch,
    Overflow,
    NoArm,
}

/// Bindings in scope, oldest first; lookup takes the newest match.
pub type EnvS = Seq<(Seq<char>, ValueS)>;

/// What running a program yields: output text and the bindings left for the
/// following operations of the same scope, or the error that aborted it.
pub type RRes = Result<(Seq<char>, EnvS), RErr>;

/// The newest binding of `x`, if any.
pub open spec fn lookup_s(env: EnvS, x: Seq<char>) -> Option<ValueS>
    decreases env.len(),
{
    if env.len() == 0 {
        None
    } else if env.last().0 == x {
        Some(env.last().1)
    } else {
        lookup_s(env.drop_last(), x)
    }
}

/// Equality of scalar values; `None` where the shapes do not admit `==`.
pub open spec fn scalar_eq_s(a: ValueS, b: ValueS) -> Option<bool> {
    match (a, b) {
        (ValueS::Int(x), ValueS::Int(y)) => Some(x == y),
        (ValueS::Str(x), ValueS::Str(y)) => Some(x == y),
        (ValueS::Bool(x), ValueS::Bool(y)) => Some(x == y),
        (ValueS::Ch(x), ValueS::Ch(y)) => Some(x == y),
        _ => None,
    }
}

/// One binary operation on evaluated operands.
pub open spec fn eval_bin_s(op: BinOp, a: ValueS, b: ValueS) -> Result<ValueS, RErr> {
    match op {
        BinOp::Add => match (a, b) {
            (ValueS::Int(x), ValueS::Int(y)) => if i64::MIN <= x + y <= i64::MAX {
                Ok(ValueS::Int(x + y))
            } else {
                Err(RErr::Overflow)
            },
            _ => Err(RErr::Mismatch),
        },
        BinOp::Sub => match (a, b) {
            (ValueS::Int(x), ValueS::Int(y)) => if i64::MIN <= x - y <= i64::MAX {
                Ok(ValueS::Int(x - y))
            } else {
                Err(RErr::Overflow)
            },
            _ => Err(RErr::Mismatch),
        },
        BinOp::Mul => match (a, b) {
            (ValueS::Int(x), ValueS::Int(y)) => if i64::MIN <= x * y <= i64::MAX {
                Ok(ValueS::Int(x * y))
            } else {
                Err(RErr::Overflow)
            },
            _ => Err(RErr::Mismatch),
        },
        BinOp::CmpEq => match scalar_eq_s(a, b) {
            Some(r) => Ok(ValueS::Bool(r)),
            None => Err(RErr::Mismatch),
        },
        BinOp::CmpNe => match scalar_eq_s(a, b) {
            Some(r) => Ok(ValueS::Bool(!r)),
            None => Err(RErr::Mismatch),
        },
        BinOp::CmpLt => match (a, b) {
            (ValueS::Int(x), ValueS::Int(y)) => Ok(ValueS::Bool(x < y)),
            _ => Err(RErr::Mismatch),
        },
        BinOp::CmpGt => match (a, b) {
            (ValueS::Int(x), ValueS::Int(y)) => Ok(ValueS::Bool(x > y)),
            _ => Err(RErr::Mismatch),
        },
    }
}

/// Evaluation of an expression under an environment.
pub open spec fn eval_s(src: Seq<char>, e: Expr, env: EnvS) -> Result<ValueS, RErr>
    decreases e, 1int, 0int,
{
    match e {
        Expr::IntLit(n) => Ok(ValueS::Int(n as int)),
        Expr::StrLit(sp) => Ok(ValueS::Str(span_text(src, sp))),
        Expr::BoolLit(b) => Ok(ValueS::Bool(b)),
        Expr::Var(sp) => match lookup_s(env, span_text(src, sp)) {
            Some(v) => Ok(v),
            None => Err(RErr::Unbound(sp)),
        },
        Expr::ListLit(es) => match eval_list_s(src, es, env) {
            Ok(vs) => Ok(ValueS::List(vs)),
            Err(er) => Err(er),
        },
        Expr::PairLit(a, b) => match (eval_s(src, *a, env), eval_s(src, *b, env)) {
            (Ok(va), Ok(vb)) => Ok(ValueS::Pair(Box::new(va), Box::new(vb))),
            (Err(er), _) => Err(er),
            (_, Err(er)) => Err(er),
        },
        Expr::Neg(inner) => match eval_s(src, *inner, env) {
            Ok(ValueS::Int(n)) => if i64::MIN <= -n <= i64::MAX {
                Ok(ValueS::Int(-n))
            } else {
                Err(RErr::Overflow)
            },
            Ok(_) => Err(RErr::Mismatch),
            Err(er) => Err(er),
        },
        Expr::Bin(op, a, b) => match (eval_s(src, *a, env), eval_s(src, *b, env)) {
            (Ok(va), Ok(vb)) => eval_bin_s(op, va, vb),
            (Err(er), _) => Err(er),
            (_, Err(er)) => Err(er),
        },
        Expr::Enumerate(inner) => match eval_s(src, *inner, env) {
            Ok(ValueS::List(vs)) => if vs.len() <= i64::MAX {
                Ok(
                    ValueS::List(
                        Seq::new(
                            vs.len(),
                            |i: int| ValueS::Pair(Box::new(ValueS::Int(i)), Box::new(vs[i])),
                        ),
                    ),
                )
            } else {
                Err(RErr::Overflow)
            },
            Ok(_) => Err(RErr::Mismatch),
            Err(er) => Err(er),
        },
    }
}

/// Evaluation of each expression of a list, left to right.
pub open spec fn eval_list_s(src: Seq<char>, es: Lst<Expr>, env: EnvS) -> Result<Seq<ValueS>, RErr>
    decreases es, 1int, 0int,
{
    match es {
        Lst::Nil => Ok(Seq::empty()),
        Lst::Cons(e0, rest) => match eval_s(src, *e0, env) {
            Ok(v) => match eval_list_s(src, *rest, env) {
                Ok(vs) => Ok(seq![v] + vs),
                Err(er) => Err(er),
            },
            Err(er) => Err(er),
        },
    }
}

/// Matching a value against a pattern: the bindings it produces, or `None`
/// when it does not match.
pub open spec fn match_pat_s(src: Seq<char>, p: Pat, v: ValueS) -> Option<EnvS>
    decreases p,
{
    match p {
        Pat::Wild => Some(Seq::empty()),
        Pat::VarP(sp) => Some(seq![(span_text(src, sp), v)]),
        Pat::IntP(n) => match v {
            ValueS::Int(m) => if m == n as int {
                Some(Seq::empty())
            } else {
                None
            },
            _ => None,
        },
        Pat::StrP(sp) => match v {
            ValueS::Str(t) => if t == span_text(src, sp) {
                Some(Seq::empty())
            } else {
                None
            },
            _ => None,
        },
        Pat::BoolP(b) => match v {
            ValueS::Bool(m) => if m == b {
                Some(Seq::empty())
            } else {
                None
            },
            _ => None,
        },
        Pat::PairP(p1, p2) => match v {
            ValueS::Pair(a, b) => match (match_pat_s(src, *p1, *a), match_pat_s(src, *p2, *b)) {
                (Some(m1), Some(m2)) => Some(m1 + m2),
                _ => None,
            },
            _ => None,
        },
        Pat::OrP(p1, p2) => match match_pat_s(src, *p1, v) {
            Some(m) => Some(m),
            None => match_pat_s(src, *p2, v),
        },
    }
}

/// How an expression standing in output position renders: a static string
/// literal is escaped at compile time; anything else is evaluated and
/// rendered through the Render Protocol.
pub open spec fn render_expr_s(src: Seq<char>, e: Expr, env: EnvS) -> Result<Seq<char>, RErr> {
    match e {
        Expr::StrLit(sp) => Ok(escape_seq(span_text(src, sp))),
        _ => match eval_s(src, e, env) {
            Ok(v) => Ok(rendered_s(v)),
            Err(er) => Err(er),
        },
    }
}

/// The attribute tri-state rule, after the value is evaluated and the name
/// rendered: absent or false emits nothing; true emits the bare name; any
/// other value emits `name="rendered value"`.
pub open spec fn attr_out_s(name_t: Seq<char>, v: ValueS) -> Seq<char> {
    if v is NoneV || v matches ValueS::Bool(false) {
        Seq::empty()
    } else if v matches ValueS::Bool(true) {
        seq![' '] + name_t
    } else {
        seq![' '] + name_t + seq!['=', '"'] + rendered_s(v) + seq!['"']
    }
}

/// The output of an iterable attribute source: each element must be a
/// name/value pair, and each pair goes through the tri-state rule with the
/// name rendered through the Render Protocol.
pub open spec fn attr_pairs_s(vs: Seq<ValueS>) -> Result<Seq<char>, RErr>
    decreases vs.len(),
{
    if vs.len() == 0 {
        Ok(Seq::empty())
    } else {
        match vs[0] {
            ValueS::Pair(n, v) => match attr_pairs_s(vs.drop_first()) {
                Ok(rest) => Ok(attr_out_s(rendered_s(*n), *v) + rest),
                Err(er) => Err(er),
            },
            _ => Err(RErr::Mismatch),
        }
    }
}

/// Running a whole program under an environment.
pub open spec fn sem_prog(src: Seq<char>, p: ProgS, env: EnvS) -> RRes
    decreases p, 0int, 0int,
{
    sem_ops(src, p.ops, env)
}

/// Running the operations in order, threading bindings.
pub open spec fn sem_ops(src: Seq<char>, ops: Seq<OpS>, env: EnvS) -> RRes
    decreases ops, 1int, 0int,
{
    if ops.len() == 0 {
        Ok((Seq::empty(), env))
    } else {
        match sem_op(src, ops[0], env) {
            Ok((o1, env1)) => match sem_ops(src, ops.drop_first(), env1) {
                Ok((o2, env2)) => Ok((o1 + o2, env2)),
                Err(er) => Err(er),
            },
            Err(er) => Err(er),
        }
    }
}

/// Running one operation.
pub open spec fn sem_op(src: Seq<char>, op: OpS, env: EnvS) -> RRes
    decreases op, 3int, 0int,
{
    match op {
        OpS::Write(t) => Ok((t, env)),
        OpS::Dyn(e) => match eval_s(src, e, env) {
            Ok(v) => Ok((rendered_s(v), env)),
            Err(er) => Err(er),
        },
        OpS::AttrOne(name_e, val_e) => match eval_s(src, val_e, env) {
            Ok(v) => if v is NoneV || v matches ValueS::Bool(false) {
                Ok((Seq::empty(), env))
            } else {
                match render_expr_s(src, name_e, env) {
                    Ok(name_t) => Ok((attr_out_s(name_t, v), env)),
                    Err(er) => Err(er),
                }
            },
            Err(er) => Err(er),
        },
        OpS::AttrMany(e) => match eval_s(src, e, env) {
            Ok(ValueS::List(vs)) => match attr_pairs_s(vs) {
                Ok(o) => Ok((o, env)),
                Err(er) => Err(er),
            },
            Ok(_) => Err(RErr::Mismatch),
            Err(er) => Err(er),
        },
        OpS::Cond(arms, def) => match sem_arms(src, arms, env) {
            Some(r) => r,
            None => match def {
                Some(d) => match sem_prog(src, d, env) {
                    Ok((o, _)) => Ok((o, env)),
                    Err(er) => Err(er),
                },
                None => Ok((Seq::empty(), env)),
            },
        },
        OpS::Loop(p, e, body) => match eval_s(src, e, env) {
            Ok(ValueS::List(vs)) => sem_loop(src, p, body, vs, env),
            Ok(_) => Err(RErr::Mismatch),
            Err(er) => Err(er),
        },
        OpS::Select(e, arms) => match eval_s(src, e, env) {
            Ok(v) => sem_marms(src, arms, v, env),
            Err(er) => Err(er),
        },
        OpS::Bind(p, e) => match eval_s(src, e, env) {
            Ok(v) => match match_pat_s(src, p, v) {
                Some(binds) => Ok((Seq::empty(), env + binds)),
                None => Err(RErr::Mismatch),
            },
            Err(er) => Err(er),
        },
    }
}

/// Trying the conditional branches in order; `None` when none is taken.
/// Bindings made inside a branch stay inside it.
pub open spec fn sem_arms(src: Seq<char>, arms: Seq<IfArmS>, env: EnvS) -> Option<RRes>
    decreases arms, 0int, 0int,
{
    if arms.len() == 0 {
        None
    } else {
        let arm = arms[0];
        match arm.test {
            IfClauseTest::Expr(e) => match eval_s(src, e, env) {
                Ok(ValueS::Bool(true)) => Some(
                    match sem_prog(src, arm.body, env) {
                        Ok((o, _)) => Ok((o, env)),
                        Err(er) => Err(er),
                    },
                ),
                Ok(ValueS::Bool(false)) => sem_arms(src, arms.drop_first(), env),
                Ok(_) => Some(Err(RErr::Mismatch)),
                Err(er) => Some(Err(er)),
            },
            IfClauseTest::Let(p, e) => match eval_s(src, e, env) {
                Ok(v) => match match_pat_s(src, p, v) {
                    Some(binds) => Some(
                        match sem_prog(src, arm.body, env + binds) {
                            Ok((o, _)) => Ok((o, env)),
                            Err(er) => Err(er),
                        },
                    ),
                    None => sem_arms(src, arms.drop_first(), env),
                },
                Err(er) => Some(Err(er)),
            },
        }
    }
}

/// Running the loop body once per element of `vs[k..]`. Bindings made inside
/// an iteration stay inside it.
pub open spec fn sem_loop(src: Seq<char>, p: Pat, body: ProgS, vs: Seq<ValueS>, env: EnvS) -> RRes
    decreases body, 1int, vs.len(),
{
    if vs.len() == 0 {
        Ok((Seq::empty(), env))
    } else {
        match match_pat_s(src, p, vs[0]) {
            Some(binds) => match sem_prog(src, body, env + binds) {
                Ok((o1, _)) => match sem_loop(src, p, body, vs.drop_first(), env) {
                    Ok((o2, _)) => Ok((o1 + o2, env)),
                    Err(er) => Err(er),
                },
                Err(er) => Err(er),
            },
            None => Err(RErr::Mismatch),
        }
    }
}

/// Trying the selection arms in order: the first whose pattern matches and
/// whose guard, if any, is true runs; with no arm left the selection fails.
pub open spec fn sem_marms(src: Seq<char>, arms: Seq<MatchArmS>, v: ValueS, env: EnvS) -> RRes
    decreases arms, 0int, 0int,
{
    if arms.len() == 0 {
        Err(RErr::NoArm)
    } else {
        let arm = arms[0];
        match match_pat_s(src, arm.pat, v) {
            Some(binds) => match arm.guard {
                Some(g) => match eval_s(src, g, env + binds) {
                    Ok(ValueS::Bool(true)) => match sem_prog(src, arm.body, env + binds) {
                        Ok((o, _)) => Ok((o, env)),
                        Err(er) => Err(er),
                    },
                    Ok(ValueS::Bool(false)) => sem_marms(src, arms.drop_first(), v, env),
                    Ok(_) => Err(RErr::Mismatch),
                    Err(er) => Err(er),
                },
                None => match sem_prog(src, arm.body, env + binds) {
                    Ok((o, _)) => Ok((o, env)),
                    Err(er) => Err(er),
                },
            },
            None => sem_marms(src, arms.drop_first(), v, env),
        }
    }
}

} // verus!
